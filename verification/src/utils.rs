//! Small shared helpers: exact string comparison, architecture names, and
//! the shapes of the release listings that JSON APIs hand back.
use crate::store_data::Arch;
use crate::store_data::ArchiveFormat;
use vstd::prelude::*;

verus! {

/// Character-for-character equality of two string slices.
#[verifier::loop_isolation(false)]
pub fn str_eq(a: &str, b: &str) -> (r: bool)
    ensures
        r == (a@ == b@),
{
    let alen = a.unicode_len();
    let blen = b.unicode_len();
    if alen != blen {
        return false;
    }
    let mut i: usize = 0;
    while i < alen
        invariant
            i <= alen,
            forall|j: int| 0 <= j < i ==> a@[j] == b@[j],
        decreases alen - i,
    {
        if a.get_char(i) != b.get_char(i) {
            return false;
        }
        i = i + 1;
    }
    proof {
        assert(a@ =~= b@);
    }
    true
}

/// The architecture a site's name for it denotes, if it is one the catalog
/// carries: the canonical name or the common alias of each.
pub open spec fn spec_arch_from_str(s: Seq<char>) -> Option<Arch> {
    if s == "x86_64"@ || s == "amd64"@ {
        Some(Arch::x86_64)
    } else if s == "aarch64"@ || s == "arm64"@ {
        Some(Arch::aarch64)
    } else if s == "riscv64"@ || s == "riscv"@ {
        Some(Arch::riscv64)
    } else {
        None
    }
}

/// Recognise an architecture name.
pub fn arch_from_str(arch: &str) -> (r: Option<Arch>)
    ensures
        r == spec_arch_from_str(arch@),
{
    if str_eq(arch, "x86_64") || str_eq(arch, "amd64") {
        Some(Arch::x86_64)
    } else if str_eq(arch, "aarch64") || str_eq(arch, "arm64") {
        Some(Arch::aarch64)
    } else if str_eq(arch, "riscv64") || str_eq(arch, "riscv") {
        Some(Arch::riscv64)
    } else {
        None
    }
}

/// Marker for the project-hosting release API: its listings parse into
/// [`GithubAPIValue`] entries.
pub struct GithubAPI;

/// One release in a project-hosting API's listing.
pub struct GithubAPIValue {
    pub tag_name: String,
    pub assets: Vec<GithubAsset>,
    pub prerelease: bool,
    pub body: String,
}

/// One downloadable asset of a release.
pub struct GithubAsset {
    pub name: String,
    pub browser_download_url: String,
}

/// One release in the Fedora project's release listing; the archive format
/// is not part of the listing and is filled in from the file extension.
pub struct FedoraRelease {
    pub release: String,
    pub arch: String,
    pub link: String,
    pub edition: String,
    pub sha256: Option<String>,
    pub archive_format: Option<ArchiveFormat>,
}

} // verus!
