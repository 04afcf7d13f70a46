//! The static list of registered sources that catalog assembly runs
//! over: every source's identity, in registration order.
use crate::bsd::FreeBSD;
use crate::bsd::DragonFlyBSD;
use crate::bsd::GhostBSD;
use crate::linux::arch::Archcraft;
use crate::linux::arch::ArchLinux;
use crate::linux::arch::ArcoLinux;
use crate::linux::arch::ArtixLinux;
use crate::linux::arch::AthenaOS;
use crate::linux::arch::BlendOS;
use crate::linux::arch::CachyOS;
use crate::linux::arch::EndeavourOS;
use crate::linux::arch::Garuda;
use crate::linux::arch::HoloISO;
use crate::linux::arch::BigLinux;
use crate::linux::debian::Antix;
use crate::linux::debian::BunsenLabs;
use crate::linux::debian::CrunchbangPlusPlus;
use crate::linux::debian::Debian;
use crate::linux::debian::Devuan;
use crate::linux::debian::EasyOS;
use crate::linux::debian::EndlessOS;
use crate::linux::debian::Lmde;
use crate::linux::fedora_redhat::Alma;
use crate::linux::fedora_redhat::Bazzite;
use crate::linux::fedora_redhat::CentOSStream;
use crate::linux::fedora_redhat::Fedora;
use crate::linux::independent::NixOS;
use crate::linux::independent::Alpine;
use crate::linux::independent::Batocera;
use crate::linux::independent::ChimeraLinux;
use crate::linux::independent::Gentoo;
use crate::linux::independent::GnomeOS;
use crate::other::FreeDOS;
use crate::other::Haiku;
use crate::other::KolibriOS;
use crate::windows::Windows;
use crate::store_data::Distro;
use crate::store_data::SourceMeta;
use vstd::prelude::*;

verus! {

/// The identities of every registered source, in registration order.
pub fn registered_sources() -> (r: Vec<SourceMeta>)
    ensures
        r@.len() == 36,
        r@[0].name@ == <FreeBSD as Distro>::spec_name(),
        r@[1].name@ == <DragonFlyBSD as Distro>::spec_name(),
        r@[2].name@ == <GhostBSD as Distro>::spec_name(),
        r@[3].name@ == <Archcraft as Distro>::spec_name(),
        r@[4].name@ == <ArchLinux as Distro>::spec_name(),
        r@[5].name@ == <ArcoLinux as Distro>::spec_name(),
        r@[6].name@ == <ArtixLinux as Distro>::spec_name(),
        r@[7].name@ == <AthenaOS as Distro>::spec_name(),
        r@[8].name@ == <BlendOS as Distro>::spec_name(),
        r@[9].name@ == <CachyOS as Distro>::spec_name(),
        r@[10].name@ == <EndeavourOS as Distro>::spec_name(),
        r@[11].name@ == <Garuda as Distro>::spec_name(),
        r@[12].name@ == <HoloISO as Distro>::spec_name(),
        r@[13].name@ == <BigLinux as Distro>::spec_name(),
        r@[14].name@ == <Antix as Distro>::spec_name(),
        r@[15].name@ == <BunsenLabs as Distro>::spec_name(),
        r@[16].name@ == <CrunchbangPlusPlus as Distro>::spec_name(),
        r@[17].name@ == <Debian as Distro>::spec_name(),
        r@[18].name@ == <Devuan as Distro>::spec_name(),
        r@[19].name@ == <EasyOS as Distro>::spec_name(),
        r@[20].name@ == <EndlessOS as Distro>::spec_name(),
        r@[21].name@ == <Lmde as Distro>::spec_name(),
        r@[22].name@ == <Alma as Distro>::spec_name(),
        r@[23].name@ == <Bazzite as Distro>::spec_name(),
        r@[24].name@ == <CentOSStream as Distro>::spec_name(),
        r@[25].name@ == <Fedora as Distro>::spec_name(),
        r@[26].name@ == <NixOS as Distro>::spec_name(),
        r@[27].name@ == <Alpine as Distro>::spec_name(),
        r@[28].name@ == <Batocera as Distro>::spec_name(),
        r@[29].name@ == <ChimeraLinux as Distro>::spec_name(),
        r@[30].name@ == <Gentoo as Distro>::spec_name(),
        r@[31].name@ == <GnomeOS as Distro>::spec_name(),
        r@[32].name@ == <FreeDOS as Distro>::spec_name(),
        r@[33].name@ == <Haiku as Distro>::spec_name(),
        r@[34].name@ == <KolibriOS as Distro>::spec_name(),
        r@[35].name@ == <Windows as Distro>::spec_name(),
{
    let mut r: Vec<SourceMeta> = Vec::new();
    r.push(FreeBSD::metadata());
    r.push(DragonFlyBSD::metadata());
    r.push(GhostBSD::metadata());
    r.push(Archcraft::metadata());
    r.push(ArchLinux::metadata());
    r.push(ArcoLinux::metadata());
    r.push(ArtixLinux::metadata());
    r.push(AthenaOS::metadata());
    r.push(BlendOS::metadata());
    r.push(CachyOS::metadata());
    r.push(EndeavourOS::metadata());
    r.push(Garuda::metadata());
    r.push(HoloISO::metadata());
    r.push(BigLinux::metadata());
    r.push(Antix::metadata());
    r.push(BunsenLabs::metadata());
    r.push(CrunchbangPlusPlus::metadata());
    r.push(Debian::metadata());
    r.push(Devuan::metadata());
    r.push(EasyOS::metadata());
    r.push(EndlessOS::metadata());
    r.push(Lmde::metadata());
    r.push(Alma::metadata());
    r.push(Bazzite::metadata());
    r.push(CentOSStream::metadata());
    r.push(Fedora::metadata());
    r.push(NixOS::metadata());
    r.push(Alpine::metadata());
    r.push(Batocera::metadata());
    r.push(ChimeraLinux::metadata());
    r.push(Gentoo::metadata());
    r.push(GnomeOS::metadata());
    r.push(FreeDOS::metadata());
    r.push(Haiku::metadata());
    r.push(KolibriOS::metadata());
    r.push(Windows::metadata());
    r
}

} // verus!
