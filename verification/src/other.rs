//! Sources outside the BSD, Linux and Windows families.
use crate::store_data::Distro;
use crate::store_data::SourceMeta;
use crate::store_data::source_meta;
use vstd::prelude::*;

verus! {

/// The FreeDOS source.
pub struct FreeDOS;

impl Distro for FreeDOS {
    open spec fn spec_name() -> Seq<char> {
        "freedos"@
    }

    open spec fn spec_pretty_name() -> Seq<char> {
        "FreeDOS"@
    }

    open spec fn spec_homepage() -> Option<Seq<char>> {
        Some("https://www.freedos.org/"@)
    }

    open spec fn spec_description() -> Option<Seq<char>> {
        Some("DOS-compatible operating system that you can use to play classic DOS games, run legacy business software, or develop embedded systems."@)
    }

    fn metadata() -> (m: SourceMeta) {
        source_meta(
            "freedos",
            "FreeDOS",
            Some("https://www.freedos.org/"),
            Some("DOS-compatible operating system that you can use to play classic DOS games, run legacy business software, or develop embedded systems."),
        )
    }
}

/// The Haiku source.
pub struct Haiku;

impl Distro for Haiku {
    open spec fn spec_name() -> Seq<char> {
        "haiku"@
    }

    open spec fn spec_pretty_name() -> Seq<char> {
        "Haiku"@
    }

    open spec fn spec_homepage() -> Option<Seq<char>> {
        Some("https://www.haiku-os.org/"@)
    }

    open spec fn spec_description() -> Option<Seq<char>> {
        Some("Specifically targets personal computing. Inspired by the BeOS, Haiku is fast, simple to use, easy to learn and yet very powerful."@)
    }

    fn metadata() -> (m: SourceMeta) {
        source_meta(
            "haiku",
            "Haiku",
            Some("https://www.haiku-os.org/"),
            Some("Specifically targets personal computing. Inspired by the BeOS, Haiku is fast, simple to use, easy to learn and yet very powerful."),
        )
    }
}

/// The KolibriOS source.
pub struct KolibriOS;

impl Distro for KolibriOS {
    open spec fn spec_name() -> Seq<char> {
        "kolibrios"@
    }

    open spec fn spec_pretty_name() -> Seq<char> {
        "KolibriOS"@
    }

    open spec fn spec_homepage() -> Option<Seq<char>> {
        Some("https://kolibrios.org/"@)
    }

    open spec fn spec_description() -> Option<Seq<char>> {
        Some("Tiny yet incredibly powerful and fast operating system."@)
    }

    fn metadata() -> (m: SourceMeta) {
        source_meta(
            "kolibrios",
            "KolibriOS",
            Some("https://kolibrios.org/"),
            Some("Tiny yet incredibly powerful and fast operating system."),
        )
    }
}

} // verus!
