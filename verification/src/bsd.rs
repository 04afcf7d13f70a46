//! Sources for the BSD family of systems.
use crate::store_data::Distro;
use crate::store_data::SourceMeta;
use crate::store_data::source_meta;
use vstd::prelude::*;

verus! {

/// The FreeBSD source.
pub struct FreeBSD;

impl Distro for FreeBSD {
    open spec fn spec_name() -> Seq<char> {
        "freebsd"@
    }

    open spec fn spec_pretty_name() -> Seq<char> {
        "FreeBSD"@
    }

    open spec fn spec_homepage() -> Option<Seq<char>> {
        Some("https://www.freebsd.org/"@)
    }

    open spec fn spec_description() -> Option<Seq<char>> {
        Some("Operating system used to power modern servers, desktops, and embedded platforms."@)
    }

    fn metadata() -> (m: SourceMeta) {
        source_meta(
            "freebsd",
            "FreeBSD",
            Some("https://www.freebsd.org/"),
            Some("Operating system used to power modern servers, desktops, and embedded platforms."),
        )
    }
}

/// The DragonFlyBSD source.
pub struct DragonFlyBSD;

impl Distro for DragonFlyBSD {
    open spec fn spec_name() -> Seq<char> {
        "dragonflybsd"@
    }

    open spec fn spec_pretty_name() -> Seq<char> {
        "DragonFlyBSD"@
    }

    open spec fn spec_homepage() -> Option<Seq<char>> {
        Some("https://www.dragonflybsd.org/"@)
    }

    open spec fn spec_description() -> Option<Seq<char>> {
        Some("Provides an opportunity for the BSD base to grow in an entirely different direction from the one taken in the FreeBSD, NetBSD, and OpenBSD series."@)
    }

    fn metadata() -> (m: SourceMeta) {
        source_meta(
            "dragonflybsd",
            "DragonFlyBSD",
            Some("https://www.dragonflybsd.org/"),
            Some("Provides an opportunity for the BSD base to grow in an entirely different direction from the one taken in the FreeBSD, NetBSD, and OpenBSD series."),
        )
    }
}

/// The GhostBSD source.
pub struct GhostBSD;

impl Distro for GhostBSD {
    open spec fn spec_name() -> Seq<char> {
        "ghostbsd"@
    }

    open spec fn spec_pretty_name() -> Seq<char> {
        "GhostBSD"@
    }

    open spec fn spec_homepage() -> Option<Seq<char>> {
        Some("https://www.ghostbsd.org/"@)
    }

    open spec fn spec_description() -> Option<Seq<char>> {
        Some("Simple, elegant desktop BSD Operating System."@)
    }

    fn metadata() -> (m: SourceMeta) {
        source_meta(
            "ghostbsd",
            "GhostBSD",
            Some("https://www.ghostbsd.org/"),
            Some("Simple, elegant desktop BSD Operating System."),
        )
    }
}

} // verus!
