//! Parsing of checksum documents into (file name, digest) pairs.
//!
//! Upstream sites publish digests in two shapes: plain text, one `digest
//! name` pair per whitespace-separated line, or prose that a pattern with
//! two capture groups picks the pairs out of. Either way the document is
//! fetched once and parsed here; generators then look file names up in the
//! resulting pairs.
use crate::utils::str_eq;
use vstd::prelude::*;

verus! {

/// The index of the first occurrence of `c` in `s` at or after `i`, or
/// `s.len()` when there is none.
pub open spec fn spec_find_char(s: Seq<char>, c: char, i: int) -> int
    decreases s.len() - i,
{
    if i < 0 || i >= s.len() {
        s.len() as int
    } else if s[i] == c {
        i
    } else {
        spec_find_char(s, c, i + 1)
    }
}

/// The whitespace characters trimmed from the ends of names and digests.
pub open spec fn spec_is_space(c: char) -> bool {
    c == ' ' || c == '\t' || c == '\r' || c == '\n'
}

/// The first index in `[lo, hi)` holding a non-whitespace character, or
/// `hi` when all of them are whitespace.
pub open spec fn spec_skip_space(s: Seq<char>, lo: int, hi: int) -> int
    decreases hi - lo,
{
    if lo >= hi {
        hi
    } else if spec_is_space(s[lo]) {
        spec_skip_space(s, lo + 1, hi)
    } else {
        lo
    }
}

/// The least upper bound in `[lo, hi]` so that `[lo, bound)` ends in a
/// non-whitespace character, or `lo` when all of them are whitespace.
pub open spec fn spec_trim_end(s: Seq<char>, lo: int, hi: int) -> int
    decreases hi - lo,
{
    if hi <= lo {
        lo
    } else if spec_is_space(s[hi - 1]) {
        spec_trim_end(s, lo, hi - 1)
    } else {
        hi
    }
}

/// The (file name, digest) pair of the line `[lo, hi)` of `s`: the part
/// before the line's first space is the digest, the rest the file name,
/// both with surrounding whitespace trimmed; a line without a space yields
/// nothing.
pub open spec fn spec_line_entry(s: Seq<char>, lo: int, hi: int) -> Option<(Seq<char>, Seq<char>)> {
    let sp = spec_find_char(s, ' ', lo);
    if sp >= hi {
        None
    } else {
        let hs = spec_skip_space(s, lo, sp);
        let he = spec_trim_end(s, hs, sp);
        let fs = spec_skip_space(s, sp + 1, hi);
        let fe = spec_trim_end(s, fs, hi);
        Some((s.subrange(fs, fe), s.subrange(hs, he)))
    }
}

/// The (file name, digest) pairs of the document from index `i` on, line
/// by line; a line break is `\n`, with a trailing `\r` ignored.
pub open spec fn spec_whitespace_entries(s: Seq<char>, i: int) -> Seq<(Seq<char>, Seq<char>)>
    decreases s.len() - i
        via spec_whitespace_entries_decreases
{
    if i < 0 || i >= s.len() {
        Seq::empty()
    } else {
        let nl = spec_find_char(s, '\n', i);
        let le = if nl > i && s[nl - 1] == '\r' {
            nl - 1
        } else {
            nl
        };
        let rest = if nl >= s.len() {
            Seq::empty()
        } else {
            spec_whitespace_entries(s, nl + 1)
        };
        match spec_line_entry(s, i, le) {
            Some(e) => seq![e] + rest,
            None => rest,
        }
    }
}

#[via_fn]
proof fn spec_whitespace_entries_decreases(s: Seq<char>, i: int) {
    if 0 <= i && i < s.len() {
        lemma_find_char_props(s, '\n', i);
    }
}

/// The pairs the whole whitespace-separated document yields, in document
/// order.
pub open spec fn spec_whitespace_pairs(s: Seq<char>) -> Seq<(Seq<char>, Seq<char>)> {
    spec_whitespace_entries(s, 0)
}

/// What it means for executable pairs to carry exactly the specified ones.
pub open spec fn spec_pairs_match(r: Seq<(String, String)>, m: Seq<(Seq<char>, Seq<char>)>) -> bool {
    r.len() == m.len() && forall|k: int|
        0 <= k < r.len() ==> (#[trigger] r[k]).0@ == m[k].0 && r[k].1@ == m[k].1
}

/// `spec_find_char` stays within `[i, s.len()]`, finds `c`, and skips
/// nothing but non-`c` characters.
pub(crate) proof fn lemma_find_char_props(s: Seq<char>, c: char, i: int)
    requires
        0 <= i <= s.len(),
    ensures
        i <= spec_find_char(s, c, i) <= s.len(),
        spec_find_char(s, c, i) < s.len() ==> s[spec_find_char(s, c, i)] == c,
        forall|j: int| i <= j < spec_find_char(s, c, i) ==> s[j] != c,
    decreases s.len() - i,
{
    if i < s.len() && s[i] != c {
        lemma_find_char_props(s, c, i + 1);
    }
}

/// The first occurrence of `c` at or after `i`.
#[verifier::loop_isolation(false)]
pub(crate) fn find_char(s: &str, n: usize, c: char, i: usize) -> (r: usize)
    requires
        n == s@.len(),
        i <= n,
    ensures
        r == spec_find_char(s@, c, i as int),
        i <= r <= n,
        r < n ==> s@[r as int] == c,
        forall|j: int| i <= j < r ==> s@[j] != c,
{
    proof {
        lemma_find_char_props(s@, c, i as int);
    }
    let mut k: usize = i;
    while k < n
        invariant
            n == s@.len(),
            i <= k <= n,
            spec_find_char(s@, c, i as int) == spec_find_char(s@, c, k as int),
        decreases n - k,
    {
        if s.get_char(k) == c {
            return k;
        }
        k = k + 1;
    }
    k
}

/// `spec_skip_space` stays within `[lo, hi]`.
proof fn lemma_skip_space_bounds(s: Seq<char>, lo: int, hi: int)
    requires
        lo <= hi,
    ensures
        lo <= spec_skip_space(s, lo, hi) <= hi,
    decreases hi - lo,
{
    if lo < hi && spec_is_space(s[lo]) {
        lemma_skip_space_bounds(s, lo + 1, hi);
    }
}

/// `spec_trim_end` stays within `[lo, hi]`.
proof fn lemma_trim_end_bounds(s: Seq<char>, lo: int, hi: int)
    requires
        lo <= hi,
    ensures
        lo <= spec_trim_end(s, lo, hi) <= hi,
    decreases hi - lo,
{
    if lo < hi && spec_is_space(s[hi - 1]) {
        lemma_trim_end_bounds(s, lo, hi - 1);
    }
}

/// Whether `c` is whitespace.
fn is_space(c: char) -> (r: bool)
    ensures
        r == spec_is_space(c),
{
    c == ' ' || c == '\t' || c == '\r' || c == '\n'
}

/// The first non-whitespace index in `[lo, hi)`, or `hi`.
#[verifier::loop_isolation(false)]
fn skip_space(s: &str, lo: usize, hi: usize) -> (r: usize)
    requires
        lo <= hi <= s@.len(),
    ensures
        r == spec_skip_space(s@, lo as int, hi as int),
        lo <= r <= hi,
{
    proof {
        lemma_skip_space_bounds(s@, lo as int, hi as int);
    }
    let mut k: usize = lo;
    while k < hi
        invariant
            lo <= k <= hi <= s@.len(),
            spec_skip_space(s@, lo as int, hi as int) == spec_skip_space(s@, k as int, hi as int),
        decreases hi - k,
    {
        if !is_space(s.get_char(k)) {
            return k;
        }
        k = k + 1;
    }
    k
}

/// The upper bound of `[lo, hi)` with trailing whitespace removed.
#[verifier::loop_isolation(false)]
fn trim_end(s: &str, lo: usize, hi: usize) -> (r: usize)
    requires
        lo <= hi <= s@.len(),
    ensures
        r == spec_trim_end(s@, lo as int, hi as int),
        lo <= r <= hi,
{
    proof {
        lemma_trim_end_bounds(s@, lo as int, hi as int);
    }
    let mut k: usize = hi;
    while k > lo
        invariant
            lo <= k <= hi <= s@.len(),
            spec_trim_end(s@, lo as int, hi as int) == spec_trim_end(s@, lo as int, k as int),
        decreases k,
    {
        if !is_space(s.get_char(k - 1)) {
            return k;
        }
        k = k - 1;
    }
    k
}

/// Parse a whitespace-separated checksum document: one `digest name` pair
/// per line, in document order; lines without a space yield nothing.
pub fn whitespace_pairs(data: &str) -> (r: Vec<(String, String)>)
    ensures
        spec_pairs_match(r@, spec_whitespace_pairs(data@)),
{
    let n = data.unicode_len();
    let mut r: Vec<(String, String)> = Vec::new();
    let mut i: usize = 0;
    while i < n
        invariant
            n == data@.len(),
            i <= n,
            spec_pairs_match(
                r@,
                spec_whitespace_pairs(data@).take(r@.len() as int),
            ),
            spec_whitespace_pairs(data@) == spec_whitespace_pairs(data@).take(r@.len() as int)
                + spec_whitespace_entries(data@, i as int),
        decreases n - i,
    {
        let nl = find_char(data, n, '\n', i);
        let le = if nl > i && data.get_char(nl - 1) == '\r' {
            nl - 1
        } else {
            nl
        };
        let sp = find_char(data, n, ' ', i);
        let ghost pre = spec_whitespace_pairs(data@).take(r@.len() as int);
        if sp < le {
            let hs = skip_space(data, i, sp);
            let he = trim_end(data, hs, sp);
            let fs = skip_space(data, sp + 1, le);
            let fe = trim_end(data, fs, le);
            let file = data.substring_char(fs, fe).to_owned();
            let hash = data.substring_char(hs, he).to_owned();
            r.push((file, hash));
            proof {
                let m = spec_whitespace_pairs(data@);
                let e = spec_line_entry(data@, i as int, le as int);
                assert(e == Some((data@.subrange(fs as int, fe as int), data@.subrange(hs as int, he as int))));
                assert(spec_whitespace_entries(data@, i as int) == seq![e.unwrap()]
                    + spec_whitespace_entries(data@, nl + 1));
                assert(m == m.take(r@.len() - 1) + spec_whitespace_entries(data@, i as int));
                assert(m.take(r@.len() as int) =~= m.take(r@.len() - 1) + seq![e.unwrap()]);
                assert(m == m.take(r@.len() as int) + spec_whitespace_entries(data@, nl + 1));
                assert(spec_pairs_match(r@, m.take(r@.len() as int)));
            }
        } else {
            proof {
                let m = spec_whitespace_pairs(data@);
                assert(spec_line_entry(data@, i as int, le as int) is None);
                assert(spec_whitespace_entries(data@, i as int) == spec_whitespace_entries(
                    data@,
                    nl + 1,
                ));
            }
        }
        if nl == n {
            proof {
                assert(spec_whitespace_entries(data@, nl + 1) =~= spec_whitespace_entries(
                    data@,
                    n as int,
                ));
            }
            i = n;
        } else {
            i = nl + 1;
        }
    }
    proof {
        let m = spec_whitespace_pairs(data@);
        assert(spec_whitespace_entries(data@, i as int) =~= Seq::empty());
        assert(m =~= m.take(r@.len() as int));
    }
    r
}

/// The (key, value) pairs that the pattern's two capture groups pick out
/// of `text`: one pair per non-overlapping match, in match order, the
/// `key_group` capture first; nothing when the pattern does not compile or
/// some match lacks one of the groups. The result depends on the arguments
/// alone.
pub uninterp spec fn capture_pairs(
    pattern: Seq<char>,
    text: Seq<char>,
    key_group: int,
    value_group: int,
) -> Option<Seq<(Seq<char>, Seq<char>)>>;

/// Relies on the regex crate: `Regex::new` compiles a pattern, or refuses
/// it, looking at the pattern alone; `Regex::captures_iter` walks the
/// non-overlapping matches of `text` in order; `Captures::get` hands out a
/// capture group's text. All of it is a function of pattern and text.
#[verifier::external_body]
fn regex_capture_pairs(pattern: &str, text: &str, key_group: usize, value_group: usize) -> (r:
    Option<Vec<(String, String)>>)
    ensures
        (match (
            r,
            capture_pairs(pattern@, text@, key_group as int, value_group as int),
        ) {
            (Some(pairs), Some(m)) => spec_pairs_match(pairs@, m),
            (None, None) => true,
            _ => false,
        }),
{
    let re = match regex::Regex::new(pattern) {
        Ok(re) => re,
        Err(_) => return None,
    };
    let mut out: Vec<(String, String)> = Vec::new();
    for caps in re.captures_iter(text) {
        let k = caps.get(key_group)?;
        let v = caps.get(value_group)?;
        out.push((k.as_str().to_string(), v.as_str().to_string()));
    }
    Some(out)
}

/// How a checksum document pairs file names with digests: whitespace
/// separation, one of the two stock digest patterns, or a custom pattern
/// whose given capture groups hold the name and the digest.
pub enum ChecksumSeparation {
    Whitespace,
    Sha256Regex,
    Md5Regex,
    CustomRegex(String, usize, usize),
}

/// The (file name, digest) pairs a document yields under each separation
/// mode; nothing when a custom pattern is refused.
pub open spec fn spec_separation_pairs(sep: ChecksumSeparation, data: Seq<char>) -> Option<
    Seq<(Seq<char>, Seq<char>)>,
> {
    match sep {
        ChecksumSeparation::Whitespace => Some(spec_whitespace_pairs(data)),
        ChecksumSeparation::Sha256Regex => capture_pairs(
            r"SHA256 \(([^)]+)\) = ([0-9a-f]+)"@,
            data,
            1,
            2,
        ),
        ChecksumSeparation::Md5Regex => capture_pairs(r"MD5 \(([^)]+)\) = ([0-9a-f]+)"@, data, 1, 2),
        ChecksumSeparation::CustomRegex(p, k, v) => capture_pairs(p@, data, k as int, v as int),
    }
}

impl ChecksumSeparation {
    /// Parse one checksum document into its (file name, digest) pairs, in
    /// document order; a refused custom pattern yields no pairs.
    pub fn build_with_data(self, data: &str) -> (r: Vec<(String, String)>)
        ensures
            (match spec_separation_pairs(self, data@) {
                Some(m) => spec_pairs_match(r@, m),
                None => r@.len() == 0,
            }),
    {
        match self {
            ChecksumSeparation::Whitespace => whitespace_pairs(data),
            ChecksumSeparation::Sha256Regex => {
                match regex_capture_pairs(r"SHA256 \(([^)]+)\) = ([0-9a-f]+)", data, 1, 2) {
                    Some(pairs) => pairs,
                    None => Vec::new(),
                }
            },
            ChecksumSeparation::Md5Regex => {
                match regex_capture_pairs(r"MD5 \(([^)]+)\) = ([0-9a-f]+)", data, 1, 2) {
                    Some(pairs) => pairs,
                    None => Vec::new(),
                }
            },
            ChecksumSeparation::CustomRegex(p, k, v) => {
                match regex_capture_pairs(p.as_str(), data, k, v) {
                    Some(pairs) => pairs,
                    None => Vec::new(),
                }
            },
        }
    }
}

/// The digest recorded for `name` among the pairs: the last pair carrying
/// the name wins, as when the pairs fill a map in document order.
pub open spec fn spec_checksum_for(pairs: Seq<(String, String)>, name: Seq<char>) -> Option<String>
    decreases pairs.len(),
{
    if pairs.len() == 0 {
        None
    } else if pairs.last().0@ == name {
        Some(pairs.last().1)
    } else {
        spec_checksum_for(pairs.drop_last(), name)
    }
}

/// Look a file's digest up among the parsed pairs.
#[verifier::loop_isolation(false)]
pub fn checksum_for(pairs: &Vec<(String, String)>, name: &str) -> (r: Option<String>)
    ensures
        r == spec_checksum_for(pairs@, name@),
{
    let mut i: usize = pairs.len();
    proof {
        assert(pairs@.take(pairs@.len() as int) =~= pairs@);
    }
    while i > 0
        invariant
            i <= pairs@.len(),
            spec_checksum_for(pairs@, name@) == spec_checksum_for(pairs@.take(i as int), name@),
        decreases i,
    {
        proof {
            assert(pairs@.take(i as int).drop_last() =~= pairs@.take(i - 1));
            assert(pairs@.take(i as int).last() == pairs@[i - 1]);
        }
        if str_eq(pairs[i - 1].0.as_str(), name) {
            return Some(pairs[i - 1].1.clone());
        }
        i = i - 1;
    }
    None
}

} // verus!
