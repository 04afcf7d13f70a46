//! Sources for independent Linux distributions.
use crate::store_data::Distro;
use crate::store_data::SourceMeta;
use crate::store_data::source_meta;
use vstd::prelude::*;

verus! {

/// The NixOS source.
pub struct NixOS;

impl Distro for NixOS {
    open spec fn spec_name() -> Seq<char> {
        "nixos"@
    }

    open spec fn spec_pretty_name() -> Seq<char> {
        "NixOS"@
    }

    open spec fn spec_homepage() -> Option<Seq<char>> {
        Some("https://nixos.org/"@)
    }

    open spec fn spec_description() -> Option<Seq<char>> {
        Some("Linux distribution based on Nix package manager, tool that takes a unique approach to package management and system configuration."@)
    }

    fn metadata() -> (m: SourceMeta) {
        source_meta(
            "nixos",
            "NixOS",
            Some("https://nixos.org/"),
            Some("Linux distribution based on Nix package manager, tool that takes a unique approach to package management and system configuration."),
        )
    }
}

/// The Alpine Linux source.
pub struct Alpine;

impl Distro for Alpine {
    open spec fn spec_name() -> Seq<char> {
        "alpine"@
    }

    open spec fn spec_pretty_name() -> Seq<char> {
        "Alpine Linux"@
    }

    open spec fn spec_homepage() -> Option<Seq<char>> {
        Some("https://alpinelinux.org/"@)
    }

    open spec fn spec_description() -> Option<Seq<char>> {
        Some("Security-oriented, lightweight Linux distribution based on musl libc and busybox."@)
    }

    fn metadata() -> (m: SourceMeta) {
        source_meta(
            "alpine",
            "Alpine Linux",
            Some("https://alpinelinux.org/"),
            Some("Security-oriented, lightweight Linux distribution based on musl libc and busybox."),
        )
    }
}

/// The Batocera source.
pub struct Batocera;

impl Distro for Batocera {
    open spec fn spec_name() -> Seq<char> {
        "batocera"@
    }

    open spec fn spec_pretty_name() -> Seq<char> {
        "Batocera"@
    }

    open spec fn spec_homepage() -> Option<Seq<char>> {
        Some("https://batocera.org/"@)
    }

    open spec fn spec_description() -> Option<Seq<char>> {
        Some("Retro-gaming distribution with the aim of turning any computer/nano computer into a gaming console during a game or permanently."@)
    }

    fn metadata() -> (m: SourceMeta) {
        source_meta(
            "batocera",
            "Batocera",
            Some("https://batocera.org/"),
            Some("Retro-gaming distribution with the aim of turning any computer/nano computer into a gaming console during a game or permanently."),
        )
    }
}

/// The Chimera Linux source.
pub struct ChimeraLinux;

impl Distro for ChimeraLinux {
    open spec fn spec_name() -> Seq<char> {
        "chimeralinux"@
    }

    open spec fn spec_pretty_name() -> Seq<char> {
        "Chimera Linux"@
    }

    open spec fn spec_homepage() -> Option<Seq<char>> {
        Some("https://chimera-linux.org/"@)
    }

    open spec fn spec_description() -> Option<Seq<char>> {
        Some("Modern, general-purpose non-GNU Linux distribution."@)
    }

    fn metadata() -> (m: SourceMeta) {
        source_meta(
            "chimeralinux",
            "Chimera Linux",
            Some("https://chimera-linux.org/"),
            Some("Modern, general-purpose non-GNU Linux distribution."),
        )
    }
}

/// The Gentoo source.
pub struct Gentoo;

impl Distro for Gentoo {
    open spec fn spec_name() -> Seq<char> {
        "gentoo"@
    }

    open spec fn spec_pretty_name() -> Seq<char> {
        "Gentoo"@
    }

    open spec fn spec_homepage() -> Option<Seq<char>> {
        Some("https://www.gentoo.org/"@)
    }

    open spec fn spec_description() -> Option<Seq<char>> {
        Some("Highly flexible, source-based Linux distribution."@)
    }

    fn metadata() -> (m: SourceMeta) {
        source_meta(
            "gentoo",
            "Gentoo",
            Some("https://www.gentoo.org/"),
            Some("Highly flexible, source-based Linux distribution."),
        )
    }
}

/// The GNOME OS source.
pub struct GnomeOS;

impl Distro for GnomeOS {
    open spec fn spec_name() -> Seq<char> {
        "gnomeos"@
    }

    open spec fn spec_pretty_name() -> Seq<char> {
        "GNOME OS"@
    }

    open spec fn spec_homepage() -> Option<Seq<char>> {
        Some("https://os.gnome.org/"@)
    }

    open spec fn spec_description() -> Option<Seq<char>> {
        Some("Alpha nightly bleeding edge distro of GNOME"@)
    }

    fn metadata() -> (m: SourceMeta) {
        source_meta(
            "gnomeos",
            "GNOME OS",
            Some("https://os.gnome.org/"),
            Some("Alpha nightly bleeding edge distro of GNOME"),
        )
    }
}

} // verus!
