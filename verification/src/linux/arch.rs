//! Sources for Arch Linux and its derivatives.
use crate::store_data::Distro;
use crate::store_data::SourceMeta;
use crate::store_data::source_meta;
use vstd::prelude::*;

verus! {

/// The Archcraft source.
pub struct Archcraft;

impl Distro for Archcraft {
    open spec fn spec_name() -> Seq<char> {
        "archcraft"@
    }

    open spec fn spec_pretty_name() -> Seq<char> {
        "Archcraft"@
    }

    open spec fn spec_homepage() -> Option<Seq<char>> {
        Some("https://archcraft.io/"@)
    }

    open spec fn spec_description() -> Option<Seq<char>> {
        Some("Yet another minimal Linux distribution, based on Arch Linux."@)
    }

    fn metadata() -> (m: SourceMeta) {
        source_meta(
            "archcraft",
            "Archcraft",
            Some("https://archcraft.io/"),
            Some("Yet another minimal Linux distribution, based on Arch Linux."),
        )
    }
}

/// The Arch Linux source.
pub struct ArchLinux;

impl Distro for ArchLinux {
    open spec fn spec_name() -> Seq<char> {
        "archlinux"@
    }

    open spec fn spec_pretty_name() -> Seq<char> {
        "Arch Linux"@
    }

    open spec fn spec_homepage() -> Option<Seq<char>> {
        Some("https://archlinux.org/"@)
    }

    open spec fn spec_description() -> Option<Seq<char>> {
        Some("Lightweight and flexible Linux® distribution that tries to Keep It Simple."@)
    }

    fn metadata() -> (m: SourceMeta) {
        source_meta(
            "archlinux",
            "Arch Linux",
            Some("https://archlinux.org/"),
            Some("Lightweight and flexible Linux® distribution that tries to Keep It Simple."),
        )
    }
}

/// The ArcoLinux source.
pub struct ArcoLinux;

impl Distro for ArcoLinux {
    open spec fn spec_name() -> Seq<char> {
        "arcolinux"@
    }

    open spec fn spec_pretty_name() -> Seq<char> {
        "ArcoLinux"@
    }

    open spec fn spec_homepage() -> Option<Seq<char>> {
        Some("https://arcolinux.com/"@)
    }

    open spec fn spec_description() -> Option<Seq<char>> {
        Some("It's all about becoming an expert in Linux."@)
    }

    fn metadata() -> (m: SourceMeta) {
        source_meta(
            "arcolinux",
            "ArcoLinux",
            Some("https://arcolinux.com/"),
            Some("It's all about becoming an expert in Linux."),
        )
    }
}

/// The Artix Linux source.
pub struct ArtixLinux;

impl Distro for ArtixLinux {
    open spec fn spec_name() -> Seq<char> {
        "artixlinux"@
    }

    open spec fn spec_pretty_name() -> Seq<char> {
        "Artix Linux"@
    }

    open spec fn spec_homepage() -> Option<Seq<char>> {
        Some("https://artixlinux.org/"@)
    }

    open spec fn spec_description() -> Option<Seq<char>> {
        Some("The Art of Linux. Simple. Fast. Systemd-free."@)
    }

    fn metadata() -> (m: SourceMeta) {
        source_meta(
            "artixlinux",
            "Artix Linux",
            Some("https://artixlinux.org/"),
            Some("The Art of Linux. Simple. Fast. Systemd-free."),
        )
    }
}

/// The Athena OS source.
pub struct AthenaOS;

impl Distro for AthenaOS {
    open spec fn spec_name() -> Seq<char> {
        "athenaos"@
    }

    open spec fn spec_pretty_name() -> Seq<char> {
        "Athena OS"@
    }

    open spec fn spec_homepage() -> Option<Seq<char>> {
        Some("https://athenaos.org/"@)
    }

    open spec fn spec_description() -> Option<Seq<char>> {
        Some("Offer a different experience than the most used pentesting distributions by providing only tools that fit with the user needs and improving the access to hacking resources and learning materials."@)
    }

    fn metadata() -> (m: SourceMeta) {
        source_meta(
            "athenaos",
            "Athena OS",
            Some("https://athenaos.org/"),
            Some("Offer a different experience than the most used pentesting distributions by providing only tools that fit with the user needs and improving the access to hacking resources and learning materials."),
        )
    }
}

/// The BlendOS source.
pub struct BlendOS;

impl Distro for BlendOS {
    open spec fn spec_name() -> Seq<char> {
        "blendos"@
    }

    open spec fn spec_pretty_name() -> Seq<char> {
        "BlendOS"@
    }

    open spec fn spec_homepage() -> Option<Seq<char>> {
        Some("https://blendos.co/"@)
    }

    open spec fn spec_description() -> Option<Seq<char>> {
        Some("A seamless blend of all Linux distributions. Allows you to have an immutable, atomic and declarative Arch Linux system, with application support from several Linux distributions & Android."@)
    }

    fn metadata() -> (m: SourceMeta) {
        source_meta(
            "blendos",
            "BlendOS",
            Some("https://blendos.co/"),
            Some("A seamless blend of all Linux distributions. Allows you to have an immutable, atomic and declarative Arch Linux system, with application support from several Linux distributions & Android."),
        )
    }
}

/// The CachyOS source.
pub struct CachyOS;

impl Distro for CachyOS {
    open spec fn spec_name() -> Seq<char> {
        "cachyos"@
    }

    open spec fn spec_pretty_name() -> Seq<char> {
        "CachyOS"@
    }

    open spec fn spec_homepage() -> Option<Seq<char>> {
        Some("https://cachyos.org/"@)
    }

    open spec fn spec_description() -> Option<Seq<char>> {
        Some("Designed to deliver lightning-fast speeds and stability, ensuring a smooth and enjoyable computing experience every time you use it."@)
    }

    fn metadata() -> (m: SourceMeta) {
        source_meta(
            "cachyos",
            "CachyOS",
            Some("https://cachyos.org/"),
            Some("Designed to deliver lightning-fast speeds and stability, ensuring a smooth and enjoyable computing experience every time you use it."),
        )
    }
}

/// The EndeavourOS source.
pub struct EndeavourOS;

impl Distro for EndeavourOS {
    open spec fn spec_name() -> Seq<char> {
        "endeavouros"@
    }

    open spec fn spec_pretty_name() -> Seq<char> {
        "EndeavourOS"@
    }

    open spec fn spec_homepage() -> Option<Seq<char>> {
        Some("https://endeavouros.com/"@)
    }

    open spec fn spec_description() -> Option<Seq<char>> {
        Some("Provides an Arch experience without the hassle of installing it manually for both x86_64 and ARM systems."@)
    }

    fn metadata() -> (m: SourceMeta) {
        source_meta(
            "endeavouros",
            "EndeavourOS",
            Some("https://endeavouros.com/"),
            Some("Provides an Arch experience without the hassle of installing it manually for both x86_64 and ARM systems."),
        )
    }
}

/// The Garuda Linux source.
pub struct Garuda;

impl Distro for Garuda {
    open spec fn spec_name() -> Seq<char> {
        "garuda"@
    }

    open spec fn spec_pretty_name() -> Seq<char> {
        "Garuda Linux"@
    }

    open spec fn spec_homepage() -> Option<Seq<char>> {
        Some("https://garudalinux.org/"@)
    }

    open spec fn spec_description() -> Option<Seq<char>> {
        Some("Feature rich and easy to use Linux distribution."@)
    }

    fn metadata() -> (m: SourceMeta) {
        source_meta(
            "garuda",
            "Garuda Linux",
            Some("https://garudalinux.org/"),
            Some("Feature rich and easy to use Linux distribution."),
        )
    }
}

/// The HoloISO source.
pub struct HoloISO;

impl Distro for HoloISO {
    open spec fn spec_name() -> Seq<char> {
        "holoiso"@
    }

    open spec fn spec_pretty_name() -> Seq<char> {
        "HoloISO"@
    }

    open spec fn spec_homepage() -> Option<Seq<char>> {
        Some("https://github.com/HoloISO/holoiso"@)
    }

    open spec fn spec_description() -> Option<Seq<char>> {
        Some("Bring the Steam Decks SteamOS Holo redistribution and provide a close-to-official SteamOS experience."@)
    }

    fn metadata() -> (m: SourceMeta) {
        source_meta(
            "holoiso",
            "HoloISO",
            Some("https://github.com/HoloISO/holoiso"),
            Some("Bring the Steam Decks SteamOS Holo redistribution and provide a close-to-official SteamOS experience."),
        )
    }
}

/// The BigLinux source.
pub struct BigLinux;

impl Distro for BigLinux {
    open spec fn spec_name() -> Seq<char> {
        "biglinux"@
    }

    open spec fn spec_pretty_name() -> Seq<char> {
        "BigLinux"@
    }

    open spec fn spec_homepage() -> Option<Seq<char>> {
        Some("https://www.biglinux.com.br/"@)
    }

    open spec fn spec_description() -> Option<Seq<char>> {
        Some("It's the right choice if you want to have an easy and enriching experience with Linux. It has been perfected over more than 19 years, following our motto: 'In search of the perfect system'"@)
    }

    fn metadata() -> (m: SourceMeta) {
        source_meta(
            "biglinux",
            "BigLinux",
            Some("https://www.biglinux.com.br/"),
            Some("It's the right choice if you want to have an easy and enriching experience with Linux. It has been perfected over more than 19 years, following our motto: 'In search of the perfect system'"),
        )
    }
}

} // verus!
