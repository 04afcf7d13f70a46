//! The Windows source.
use crate::store_data::Distro;
use crate::store_data::SourceMeta;
use crate::store_data::source_meta;
use vstd::prelude::*;

verus! {

/// The Windows source.
pub struct Windows;

impl Distro for Windows {
    open spec fn spec_name() -> Seq<char> {
        "windows"@
    }

    open spec fn spec_pretty_name() -> Seq<char> {
        "Windows"@
    }

    open spec fn spec_homepage() -> Option<Seq<char>> {
        Some("https://www.microsoft.com/en-us/windows/"@)
    }

    open spec fn spec_description() -> Option<Seq<char>> {
        Some("Whether you’re gaming, studying, running a business, or running a household, Windows helps you get it done."@)
    }

    fn metadata() -> (m: SourceMeta) {
        source_meta(
            "windows",
            "Windows",
            Some("https://www.microsoft.com/en-us/windows/"),
            Some("Whether you’re gaming, studying, running a business, or running a household, Windows helps you get it done."),
        )
    }
}

} // verus!
