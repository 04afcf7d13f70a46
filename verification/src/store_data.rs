//! The catalog's data model: resource references, candidate records,
//! per-source catalog entries, and the static identity of a registered
//! source.
//!
//! A candidate record is produced by a source generator, consumed read-only
//! by the link validator, and then either retained — it flows into a
//! catalog entry — or discarded. Only network resources are subject to
//! liveness validation; container-registry references are exempt.
use vstd::prelude::*;

verus! {

/// Hardware architectures a candidate record can target.
#[allow(non_camel_case_types)]
#[derive(Clone, Copy, PartialEq, Eq, Structural, Debug)]
pub enum Arch {
    x86_64,
    aarch64,
    riscv64,
}

/// Archive or compression formats a resource may be packed in.
#[derive(Clone, Copy, PartialEq, Eq, Structural, Debug)]
pub enum ArchiveFormat {
    Tar,
    TarBz2,
    TarGz,
    TarXz,
    Bz2,
    Gz,
    Xz,
    Zip,
}

/// A downloadable network resource: its URL and, optionally, the checksum
/// expected of it, the archive format it is packed in, and the file name to
/// store it under.
#[derive(PartialEq, Debug)]
pub struct WebSource {
    pub url: String,
    pub checksum: Option<String>,
    pub archive_format: Option<ArchiveFormat>,
    pub file_name: Option<String>,
}

impl WebSource {
    /// Bundle the parts of a network resource reference.
    pub fn new(
        url: String,
        checksum: Option<String>,
        archive_format: Option<ArchiveFormat>,
        file_name: Option<String>,
    ) -> (w: WebSource)
        ensures
            w == (WebSource { url, checksum, archive_format, file_name }),
    {
        WebSource { url, checksum, archive_format, file_name }
    }
}

/// One resource reference of a record: a network resource, which liveness
/// validation must confirm, or a container-registry reference, which is
/// exempt from liveness checks.
#[derive(PartialEq, Debug)]
pub enum Source {
    Web(WebSource),
    Docker(String),
}

/// A disk image of a record, with the resource it is fetched from.
#[derive(PartialEq, Debug)]
pub struct Disk {
    pub source: Source,
    pub size: Option<u64>,
}

/// A candidate downloadable release variant: produced by a source
/// generator, immutable once created. Its resources come in several
/// variants (installer image, raw image, fixed media, floppy, disk
/// images); every network URL among them must be reachable before the
/// record is published.
#[derive(PartialEq, Debug)]
pub struct Config {
    pub release: String,
    pub edition: Option<String>,
    pub arch: Arch,
    pub iso: Option<Vec<Source>>,
    pub img: Option<Vec<Source>>,
    pub fixed_iso: Option<Vec<Source>>,
    pub floppy: Option<Vec<Source>>,
    pub disk_images: Option<Vec<Disk>>,
}

/// A validated catalog entry for one source: its identity and the records
/// that passed validation, in generator order.
#[derive(PartialEq, Debug)]
pub struct OS {
    pub name: String,
    pub pretty_name: String,
    pub homepage: Option<String>,
    pub description: Option<String>,
    pub releases: Vec<Config>,
}

/// The static identity of one registered source.
#[derive(PartialEq, Debug)]
pub struct SourceMeta {
    pub name: String,
    pub pretty_name: String,
    pub homepage: Option<String>,
    pub description: Option<String>,
}

/// Bundle a source's static identity from its string constants.
pub fn source_meta(
    name: &str,
    pretty_name: &str,
    homepage: Option<&str>,
    description: Option<&str>,
) -> (m: SourceMeta)
    ensures
        m.name@ == name@,
        m.pretty_name@ == pretty_name@,
        (match (m.homepage, homepage) {
            (Some(a), Some(b)) => a@ == b@,
            (None, None) => true,
            _ => false,
        }),
        (match (m.description, description) {
            (Some(a), Some(b)) => a@ == b@,
            (None, None) => true,
            _ => false,
        }),
{
    let homepage = match homepage {
        Some(h) => Some(h.to_owned()),
        None => None,
    };
    let description = match description {
        Some(d) => Some(d.to_owned()),
        None => None,
    };
    SourceMeta { name: name.to_owned(), pretty_name: pretty_name.to_owned(), homepage, description }
}

/// A registered source: a pluggable unit with a fixed identity. Its
/// generation capability — producing candidate records by scraping one
/// upstream site — lives with the embedding; the catalog core consumes the
/// records it hands over.
pub trait Distro {
    /// The source's catalog key.
    spec fn spec_name() -> Seq<char>;

    /// The source's display name.
    spec fn spec_pretty_name() -> Seq<char>;

    /// The source's homepage, if one is published.
    spec fn spec_homepage() -> Option<Seq<char>>;

    /// The source's description, if one is published.
    spec fn spec_description() -> Option<Seq<char>>;

    /// The source's static identity, as registered in the catalog.
    fn metadata() -> (m: SourceMeta)
        ensures
            m.name@ == Self::spec_name(),
            m.pretty_name@ == Self::spec_pretty_name(),
            (match m.homepage {
                Some(h) => Self::spec_homepage() == Some(h@),
                None => Self::spec_homepage() is None,
            }),
            (match m.description {
                Some(d) => Self::spec_description() == Some(d@),
                None => Self::spec_description() is None,
            }),
    ;
}

/// The network URLs among `sources`, in order; container-registry
/// references do not appear.
pub open spec fn spec_web_urls(sources: Seq<Source>) -> Seq<String>
    decreases sources.len(),
{
    if sources.len() == 0 {
        Seq::empty()
    } else {
        spec_web_urls(sources.drop_last())
            + (match sources.last() {
            Source::Web(w) => seq![w.url],
            Source::Docker(_) => Seq::empty(),
        })
    }
}

/// Keep the URLs of the network resources among `sources`, in order.
pub fn filter_web_sources(sources: &[Source]) -> (r: Vec<String>)
    ensures
        r@ == spec_web_urls(sources@),
{
    let mut r: Vec<String> = Vec::new();
    let mut i: usize = 0;
    while i < sources.len()
        invariant
            i <= sources@.len(),
            r@ == spec_web_urls(sources@.take(i as int)),
        decreases sources@.len() - i,
    {
        match &sources[i] {
            Source::Web(w) => {
                r.push(w.url.clone());
            },
            Source::Docker(_) => (),
        }
        proof {
            assert(sources@.take(i + 1).drop_last() =~= sources@.take(i as int));
            assert(sources@.take(i + 1).last() == sources@[i as int]);
        }
        i = i + 1;
    }
    proof {
        assert(sources@.take(sources@.len() as int) =~= sources@);
    }
    r
}

/// The network URLs of the given disks' resources, in order.
pub open spec fn spec_disk_web_urls(disks: Seq<Disk>) -> Seq<String>
    decreases disks.len(),
{
    if disks.len() == 0 {
        Seq::empty()
    } else {
        spec_disk_web_urls(disks.drop_last())
            + (match disks.last().source {
            Source::Web(w) => seq![w.url],
            Source::Docker(_) => Seq::empty(),
        })
    }
}

/// Keep the URLs of the network resources behind the disk images, in
/// order; an absent disk list contributes nothing.
pub fn extract_disk_urls(disks: Option<&[Disk]>) -> (r: Vec<String>)
    ensures
        (match disks {
            Some(ds) => r@ == spec_disk_web_urls(ds@),
            None => r@ == Seq::<String>::empty(),
        }),
{
    let mut r: Vec<String> = Vec::new();
    let ds: &[Disk] = match disks {
        Some(ds) => ds,
        None => {
            return r;
        },
    };
    let mut i: usize = 0;
    while i < ds.len()
        invariant
            i <= ds@.len(),
            r@ == spec_disk_web_urls(ds@.take(i as int)),
        decreases ds@.len() - i,
    {
        match &ds[i].source {
            Source::Web(w) => {
                r.push(w.url.clone());
            },
            Source::Docker(_) => (),
        }
        proof {
            assert(ds@.take(i + 1).drop_last() =~= ds@.take(i as int));
            assert(ds@.take(i + 1).last() == ds@[i as int]);
        }
        i = i + 1;
    }
    proof {
        assert(ds@.take(ds@.len() as int) =~= ds@);
    }
    r
}

} // verus!
