//! Sources for Fedora and the Red Hat family.
use crate::store_data::Distro;
use crate::store_data::SourceMeta;
use crate::store_data::source_meta;
use vstd::prelude::*;

verus! {

/// The AlmaLinux source.
pub struct Alma;

impl Distro for Alma {
    open spec fn spec_name() -> Seq<char> {
        "alma"@
    }

    open spec fn spec_pretty_name() -> Seq<char> {
        "AlmaLinux"@
    }

    open spec fn spec_homepage() -> Option<Seq<char>> {
        Some("https://almalinux.org/"@)
    }

    open spec fn spec_description() -> Option<Seq<char>> {
        Some("Community owned and governed, forever-free enterprise Linux distribution, focused on long-term stability, providing a robust production-grade platform. AlmaLinux OS is binary compatible with RHEL®."@)
    }

    fn metadata() -> (m: SourceMeta) {
        source_meta(
            "alma",
            "AlmaLinux",
            Some("https://almalinux.org/"),
            Some("Community owned and governed, forever-free enterprise Linux distribution, focused on long-term stability, providing a robust production-grade platform. AlmaLinux OS is binary compatible with RHEL®."),
        )
    }
}

/// The Bazzite source.
pub struct Bazzite;

impl Distro for Bazzite {
    open spec fn spec_name() -> Seq<char> {
        "bazzite"@
    }

    open spec fn spec_pretty_name() -> Seq<char> {
        "Bazzite"@
    }

    open spec fn spec_homepage() -> Option<Seq<char>> {
        Some("https://bazzite.gg/"@)
    }

    open spec fn spec_description() -> Option<Seq<char>> {
        Some("Container native gaming and a ready-to-game SteamOS like."@)
    }

    fn metadata() -> (m: SourceMeta) {
        source_meta(
            "bazzite",
            "Bazzite",
            Some("https://bazzite.gg/"),
            Some("Container native gaming and a ready-to-game SteamOS like."),
        )
    }
}

/// The CentOS Stream source.
pub struct CentOSStream;

impl Distro for CentOSStream {
    open spec fn spec_name() -> Seq<char> {
        "centos-stream"@
    }

    open spec fn spec_pretty_name() -> Seq<char> {
        "CentOS Stream"@
    }

    open spec fn spec_homepage() -> Option<Seq<char>> {
        Some("https://www.centos.org/centos-stream/"@)
    }

    open spec fn spec_description() -> Option<Seq<char>> {
        Some("Continuously delivered distro that tracks just ahead of Red Hat Enterprise Linux (RHEL) development, positioned as a midstream between Fedora Linux and RHEL."@)
    }

    fn metadata() -> (m: SourceMeta) {
        source_meta(
            "centos-stream",
            "CentOS Stream",
            Some("https://www.centos.org/centos-stream/"),
            Some("Continuously delivered distro that tracks just ahead of Red Hat Enterprise Linux (RHEL) development, positioned as a midstream between Fedora Linux and RHEL."),
        )
    }
}

/// The Fedora source.
pub struct Fedora;

impl Distro for Fedora {
    open spec fn spec_name() -> Seq<char> {
        "fedora"@
    }

    open spec fn spec_pretty_name() -> Seq<char> {
        "Fedora"@
    }

    open spec fn spec_homepage() -> Option<Seq<char>> {
        Some("https://fedoraproject.org/"@)
    }

    open spec fn spec_description() -> Option<Seq<char>> {
        Some("Innovative platform for hardware, clouds, and containers, built with love by you."@)
    }

    fn metadata() -> (m: SourceMeta) {
        source_meta(
            "fedora",
            "Fedora",
            Some("https://fedoraproject.org/"),
            Some("Innovative platform for hardware, clouds, and containers, built with love by you."),
        )
    }
}

} // verus!
