//! Link-liveness validation: the bulk reachability check over the network
//! URLs one candidate record references.
//!
//! Each URL is probed through the governor. A probe confirms the URL iff
//! the status is a success (2xx) or "too many requests" (429) — a
//! throttled resource is taken to exist; any other status, a transport
//! error, and a URL that does not parse leave it unconfirmed. A record
//! validates iff every network URL it references is confirmed; a record
//! with no network URLs trivially validates. Deliberately, 429 confirms
//! liveness here although it fails a content fetch: the asymmetry avoids
//! false negatives on throttled mirrors.
use crate::fetch::host_of;
use crate::fetch::url_host;
use crate::store_data::Config;
use crate::store_data::Disk;
use crate::store_data::Source;
use crate::store_data::extract_disk_urls;
use crate::store_data::filter_web_sources;
use crate::store_data::spec_disk_web_urls;
use crate::store_data::spec_web_urls;
use vstd::prelude::*;

verus! {

/// What one reachability probe reported: a transport error or a status.
#[derive(Clone, Copy, PartialEq, Eq, Structural, Debug)]
pub enum ProbeOutcome {
    Transport,
    Status(u16),
}

/// A probe confirms its URL iff the status is a success or the host is
/// merely throttling.
pub open spec fn spec_probe_ok(o: ProbeOutcome) -> bool {
    match o {
        ProbeOutcome::Transport => false,
        ProbeOutcome::Status(s) => (200 <= s < 300) || s == 429,
    }
}

/// Classify one probe outcome.
pub fn probe_ok(o: &ProbeOutcome) -> (r: bool)
    ensures
        r == spec_probe_ok(*o),
{
    match o {
        ProbeOutcome::Transport => false,
        ProbeOutcome::Status(s) => (200 <= *s && *s < 300) || *s == 429,
    }
}

/// The probe answer recorded for `url` in `entries`, from index `i` on:
/// the first entry for the URL decides; a URL no entry answers probes as a
/// transport error.
pub open spec fn spec_outcome_from(
    entries: Seq<(String, ProbeOutcome)>,
    url: Seq<char>,
    i: int,
) -> ProbeOutcome
    decreases entries.len() - i,
{
    if i < 0 || i >= entries.len() {
        ProbeOutcome::Transport
    } else if entries[i].0@ == url {
        entries[i].1
    } else {
        spec_outcome_from(entries, url, i + 1)
    }
}

/// Whether some entry from index `i` on answers `url`.
pub open spec fn spec_answered_from(
    entries: Seq<(String, ProbeOutcome)>,
    url: Seq<char>,
    i: int,
) -> bool
    decreases entries.len() - i,
{
    if i < 0 || i >= entries.len() {
        false
    } else if entries[i].0@ == url {
        true
    } else {
        spec_answered_from(entries, url, i + 1)
    }
}

/// Fixed probe responses keyed by URL: a deterministic substitute
/// transport for validation.
pub struct ProbeTable {
    entries: Vec<(String, ProbeOutcome)>,
}

impl ProbeTable {
    /// The answer the table gives for `url`.
    pub closed spec fn spec_outcome_of(self, url: Seq<char>) -> ProbeOutcome {
        spec_outcome_from(self.entries@, url, 0)
    }

    /// Whether the table has an answer recorded for `url`.
    pub closed spec fn spec_answers(self, url: Seq<char>) -> bool {
        spec_answered_from(self.entries@, url, 0)
    }

    /// A table with no answers: every probe reports a transport error.
    pub fn new() -> (t: ProbeTable)
        ensures
            forall|url: Seq<char>| t.spec_outcome_of(url) == ProbeOutcome::Transport,
            forall|url: Seq<char>| !t.spec_answers(url),
    {
        ProbeTable { entries: Vec::new() }
    }

    /// Record the answer for one more URL; answers already recorded keep
    /// priority.
    pub fn push(&mut self, url: String, outcome: ProbeOutcome)
        ensures
            final(self).spec_outcome_of(url@) == (if old(self).spec_answers(url@) {
                old(self).spec_outcome_of(url@)
            } else {
                outcome
            }),
            final(self).spec_answers(url@),
            forall|u: Seq<char>|
                u != url@ ==> final(self).spec_outcome_of(u) == old(self).spec_outcome_of(u)
                    && final(self).spec_answers(u) == old(self).spec_answers(u),
    {
        self.entries.push((url, outcome));
        proof {
            lemma_outcome_from_push(old(self).entries@, url, outcome, 0);
            assert forall|u: Seq<char>| u != url@ implies final(self).spec_outcome_of(u) == old(
                self,
            ).spec_outcome_of(u) by {
                lemma_outcome_from_push(old(self).entries@, url, outcome, 0);
            }
        }
    }

    /// Look up the recorded answer for `url`.
    pub fn outcome_of(&self, url: &String) -> (o: ProbeOutcome)
        ensures
            o == self.spec_outcome_of(url@),
    {
        let mut i: usize = 0;
        while i < self.entries.len()
            invariant
                i <= self.entries@.len(),
                spec_outcome_from(self.entries@, url@, 0) == spec_outcome_from(
                    self.entries@,
                    url@,
                    i as int,
                ),
            decreases self.entries@.len() - i,
        {
            if self.entries[i].0 == *url {
                return self.entries[i].1;
            }
            i = i + 1;
        }
        ProbeOutcome::Transport
    }
}

/// Appending an entry changes no answer that an earlier entry already
/// gives, and answers a previously unanswered URL only if it is the
/// appended one.
proof fn lemma_outcome_from_push(
    entries: Seq<(String, ProbeOutcome)>,
    url: String,
    outcome: ProbeOutcome,
    i: int,
)
    requires
        0 <= i <= entries.len(),
    ensures
        spec_outcome_from(entries.push((url, outcome)), url@, i) == (if spec_answered_from(
            entries,
            url@,
            i,
        ) {
            spec_outcome_from(entries, url@, i)
        } else {
            outcome
        }),
        spec_answered_from(entries.push((url, outcome)), url@, i),
        forall|u: Seq<char>|
            u != url@ ==> spec_outcome_from(entries.push((url, outcome)), u, i)
                == spec_outcome_from(entries, u, i) && spec_answered_from(
                entries.push((url, outcome)),
                u,
                i,
            ) == spec_answered_from(entries, u, i),
    decreases entries.len() - i,
{
    let pushed = entries.push((url, outcome));
    if i < entries.len() {
        assert(pushed[i] == entries[i]);
        lemma_outcome_from_push(entries, url, outcome, i + 1);
        assert forall|u: Seq<char>| u != url@ implies spec_outcome_from(pushed, u, i)
            == spec_outcome_from(entries, u, i) && spec_answered_from(pushed, u, i)
            == spec_answered_from(entries, u, i) by {
            assert(spec_outcome_from(pushed, u, i + 1) == spec_outcome_from(entries, u, i + 1));
            assert(spec_answered_from(pushed, u, i + 1) == spec_answered_from(entries, u, i + 1));
        }
    } else {
        assert(pushed[i] == (url, outcome));
        assert(spec_outcome_from(pushed, url@, i) == outcome);
        assert forall|u: Seq<char>| u != url@ implies spec_outcome_from(pushed, u, i)
            == spec_outcome_from(entries, u, i) && spec_answered_from(pushed, u, i)
            == spec_answered_from(entries, u, i) by {
            assert(spec_outcome_from(pushed, u, i + 1) == ProbeOutcome::Transport);
            assert(spec_outcome_from(entries, u, i) == ProbeOutcome::Transport);
            assert(!spec_answered_from(pushed, u, i + 1));
            assert(!spec_answered_from(entries, u, i));
        }
    }
}

/// One URL is confirmed live iff it parses as a URL with a host and its
/// probe succeeds.
pub open spec fn spec_url_ok(url: Seq<char>, table: ProbeTable) -> bool {
    host_of(url) is Some && spec_probe_ok(table.spec_outcome_of(url))
}

/// All of `urls` are confirmed live; an empty list trivially validates.
pub open spec fn spec_all_valid(urls: Seq<String>, table: ProbeTable) -> bool {
    forall|i: int| 0 <= i < urls.len() ==> spec_url_ok(#[trigger] urls[i]@, table)
}

/// Probe every URL against the table and report whether all are confirmed.
pub fn all_valid(urls: &Vec<String>, table: &ProbeTable) -> (r: bool)
    ensures
        r == spec_all_valid(urls@, *table),
{
    let mut i: usize = 0;
    while i < urls.len()
        invariant
            i <= urls@.len(),
            forall|j: int| 0 <= j < i ==> spec_url_ok(#[trigger] urls@[j]@, *table),
        decreases urls@.len() - i,
    {
        let url = &urls[i];
        match url_host(url.as_str()) {
            None => {
                proof {
                    assert(!spec_url_ok(urls@[i as int]@, *table));
                }
                return false;
            },
            Some(_) => {
                let o = table.outcome_of(url);
                if !probe_ok(&o) {
                    proof {
                        assert(!spec_url_ok(urls@[i as int]@, *table));
                    }
                    return false;
                }
            },
        }
        i = i + 1;
    }
    true
}

/// The part of `opt` that validation reads: the network URLs of a present
/// resource list, nothing for an absent one.
pub open spec fn spec_opt_web_urls(opt: Option<Vec<Source>>) -> Seq<String> {
    match opt {
        Some(v) => spec_web_urls(v@),
        None => Seq::empty(),
    }
}

/// As above, for a record's disk images.
pub open spec fn spec_opt_disk_urls(opt: Option<Vec<Disk>>) -> Seq<String> {
    match opt {
        Some(ds) => spec_disk_web_urls(ds@),
        None => Seq::empty(),
    }
}

/// Every network URL one candidate record references, in order: installer
/// images, raw images, fixed media, floppies, then disk images.
pub open spec fn spec_record_urls(c: Config) -> Seq<String> {
    spec_opt_web_urls(c.iso) + spec_opt_web_urls(c.img) + spec_opt_web_urls(c.fixed_iso)
        + spec_opt_web_urls(c.floppy) + spec_opt_disk_urls(c.disk_images)
}

/// The network URLs of one optional resource list.
fn opt_web_urls(opt: &Option<Vec<Source>>) -> (r: Vec<String>)
    ensures
        r@ == spec_opt_web_urls(*opt),
{
    match opt {
        Some(v) => filter_web_sources(v.as_slice()),
        None => Vec::new(),
    }
}

/// Collect every network URL the record references, in order.
pub fn record_urls(c: &Config) -> (r: Vec<String>)
    ensures
        r@ == spec_record_urls(*c),
{
    let mut r = opt_web_urls(&c.iso);
    let mut part = opt_web_urls(&c.img);
    r.append(&mut part);
    let mut part = opt_web_urls(&c.fixed_iso);
    r.append(&mut part);
    let mut part = opt_web_urls(&c.floppy);
    r.append(&mut part);
    let mut part = match &c.disk_images {
        Some(ds) => extract_disk_urls(Some(ds.as_slice())),
        None => Vec::new(),
    };
    r.append(&mut part);
    r
}

/// One record validates iff every network URL it references is confirmed
/// live; a record with no network URLs trivially validates.
pub open spec fn spec_record_valid(c: Config, table: ProbeTable) -> bool {
    spec_all_valid(spec_record_urls(c), table)
}

/// Validate one candidate record against the table.
pub fn record_valid(c: &Config, table: &ProbeTable) -> (r: bool)
    ensures
        r == spec_record_valid(*c, *table),
{
    let urls = record_urls(c);
    all_valid(&urls, table)
}

/// Validation is a function of the probe answers alone: two tables that
/// answer every URL of `urls` identically validate `urls` identically.
pub proof fn lemma_all_valid_replay(urls: Seq<String>, t1: ProbeTable, t2: ProbeTable)
    requires
        forall|i: int|
            0 <= i < urls.len() ==> t1.spec_outcome_of(#[trigger] urls[i]@) == t2.spec_outcome_of(
                urls[i]@,
            ),
    ensures
        spec_all_valid(urls, t1) == spec_all_valid(urls, t2),
{
    assert forall|i: int| 0 <= i < urls.len() implies (spec_url_ok(#[trigger] urls[i]@, t1)
        == spec_url_ok(urls[i]@, t2)) by {
        assert(t1.spec_outcome_of(urls[i]@) == t2.spec_outcome_of(urls[i]@));
    }
    if spec_all_valid(urls, t1) {
        assert forall|i: int| 0 <= i < urls.len() implies spec_url_ok(
            #[trigger] urls[i]@,
            t2,
        ) by {
            assert(spec_url_ok(urls[i]@, t1));
        }
    }
    if spec_all_valid(urls, t2) {
        assert forall|i: int| 0 <= i < urls.len() implies spec_url_ok(
            #[trigger] urls[i]@,
            t1,
        ) by {
            assert(spec_url_ok(urls[i]@, t2));
        }
    }
}

} // verus!
