//! Sources for Debian and its derivatives.
use crate::store_data::Distro;
use crate::store_data::SourceMeta;
use crate::store_data::source_meta;
use vstd::prelude::*;

verus! {

/// The antiX source.
pub struct Antix;

impl Distro for Antix {
    open spec fn spec_name() -> Seq<char> {
        "antix"@
    }

    open spec fn spec_pretty_name() -> Seq<char> {
        "antiX"@
    }

    open spec fn spec_homepage() -> Option<Seq<char>> {
        Some("https://antixlinux.com/"@)
    }

    open spec fn spec_description() -> Option<Seq<char>> {
        Some("Fast, lightweight and easy to install systemd-free linux live CD distribution based on Debian Stable for Intel-AMD x86 compatible systems."@)
    }

    fn metadata() -> (m: SourceMeta) {
        source_meta(
            "antix",
            "antiX",
            Some("https://antixlinux.com/"),
            Some("Fast, lightweight and easy to install systemd-free linux live CD distribution based on Debian Stable for Intel-AMD x86 compatible systems."),
        )
    }
}

/// The BunsenLabs source.
pub struct BunsenLabs;

impl Distro for BunsenLabs {
    open spec fn spec_name() -> Seq<char> {
        "bunsenlabs"@
    }

    open spec fn spec_pretty_name() -> Seq<char> {
        "BunsenLabs"@
    }

    open spec fn spec_homepage() -> Option<Seq<char>> {
        Some("https://www.bunsenlabs.org/"@)
    }

    open spec fn spec_description() -> Option<Seq<char>> {
        Some("Light-weight and easily customizable Openbox desktop. The project is a community continuation of CrunchBang Linux."@)
    }

    fn metadata() -> (m: SourceMeta) {
        source_meta(
            "bunsenlabs",
            "BunsenLabs",
            Some("https://www.bunsenlabs.org/"),
            Some("Light-weight and easily customizable Openbox desktop. The project is a community continuation of CrunchBang Linux."),
        )
    }
}

/// The Crunchbangplusplus source.
pub struct CrunchbangPlusPlus;

impl Distro for CrunchbangPlusPlus {
    open spec fn spec_name() -> Seq<char> {
        "crunchbang++"@
    }

    open spec fn spec_pretty_name() -> Seq<char> {
        "Crunchbangplusplus"@
    }

    open spec fn spec_homepage() -> Option<Seq<char>> {
        Some("https://crunchbangplusplus.org/"@)
    }

    open spec fn spec_description() -> Option<Seq<char>> {
        Some("The classic minimal crunchbang feel, now with debian 12 bookworm."@)
    }

    fn metadata() -> (m: SourceMeta) {
        source_meta(
            "crunchbang++",
            "Crunchbangplusplus",
            Some("https://crunchbangplusplus.org/"),
            Some("The classic minimal crunchbang feel, now with debian 12 bookworm."),
        )
    }
}

/// The Debian source.
pub struct Debian;

impl Distro for Debian {
    open spec fn spec_name() -> Seq<char> {
        "debian"@
    }

    open spec fn spec_pretty_name() -> Seq<char> {
        "Debian"@
    }

    open spec fn spec_homepage() -> Option<Seq<char>> {
        Some("https://www.debian.org/"@)
    }

    open spec fn spec_description() -> Option<Seq<char>> {
        Some("Complete Free Operating System with perfect level of ease of use and stability."@)
    }

    fn metadata() -> (m: SourceMeta) {
        source_meta(
            "debian",
            "Debian",
            Some("https://www.debian.org/"),
            Some("Complete Free Operating System with perfect level of ease of use and stability."),
        )
    }
}

/// The Devuan source.
pub struct Devuan;

impl Distro for Devuan {
    open spec fn spec_name() -> Seq<char> {
        "devuan"@
    }

    open spec fn spec_pretty_name() -> Seq<char> {
        "Devuan"@
    }

    open spec fn spec_homepage() -> Option<Seq<char>> {
        Some("https://devuan.org/"@)
    }

    open spec fn spec_description() -> Option<Seq<char>> {
        Some("Fork of Debian without systemd that allows users to reclaim control over their system by avoiding unnecessary entanglements and ensuring Init Freedom."@)
    }

    fn metadata() -> (m: SourceMeta) {
        source_meta(
            "devuan",
            "Devuan",
            Some("https://devuan.org/"),
            Some("Fork of Debian without systemd that allows users to reclaim control over their system by avoiding unnecessary entanglements and ensuring Init Freedom."),
        )
    }
}

/// The EasyOS source.
pub struct EasyOS;

impl Distro for EasyOS {
    open spec fn spec_name() -> Seq<char> {
        "easyos"@
    }

    open spec fn spec_pretty_name() -> Seq<char> {
        "EasyOS"@
    }

    open spec fn spec_homepage() -> Option<Seq<char>> {
        Some("https://easyos.org/"@)
    }

    open spec fn spec_description() -> Option<Seq<char>> {
        Some("Experimental distribution designed from scratch to support containers."@)
    }

    fn metadata() -> (m: SourceMeta) {
        source_meta(
            "easyos",
            "EasyOS",
            Some("https://easyos.org/"),
            Some("Experimental distribution designed from scratch to support containers."),
        )
    }
}

/// The Endless OS source.
pub struct EndlessOS;

impl Distro for EndlessOS {
    open spec fn spec_name() -> Seq<char> {
        "endless"@
    }

    open spec fn spec_pretty_name() -> Seq<char> {
        "Endless OS"@
    }

    open spec fn spec_homepage() -> Option<Seq<char>> {
        Some("https://endlessos.org/"@)
    }

    open spec fn spec_description() -> Option<Seq<char>> {
        Some("Completely Free, User-Friendly Operating System Packed with Educational Tools, Games, and More."@)
    }

    fn metadata() -> (m: SourceMeta) {
        source_meta(
            "endless",
            "Endless OS",
            Some("https://endlessos.org/"),
            Some("Completely Free, User-Friendly Operating System Packed with Educational Tools, Games, and More."),
        )
    }
}

/// The Linux Mint Debian Edition source.
pub struct Lmde;

impl Distro for Lmde {
    open spec fn spec_name() -> Seq<char> {
        "lmde"@
    }

    open spec fn spec_pretty_name() -> Seq<char> {
        "Linux Mint Debian Edition"@
    }

    open spec fn spec_homepage() -> Option<Seq<char>> {
        Some("https://linuxmint.com/download_lmde.php"@)
    }

    open spec fn spec_description() -> Option<Seq<char>> {
        Some("Aims to be as similar as possible to Linux Mint, but without using Ubuntu. The package base is provided by Debian instead."@)
    }

    fn metadata() -> (m: SourceMeta) {
        source_meta(
            "lmde",
            "Linux Mint Debian Edition",
            Some("https://linuxmint.com/download_lmde.php"),
            Some("Aims to be as similar as possible to Linux Mint, but without using Ubuntu. The package base is provided by Debian instead."),
        )
    }
}

} // verus!
