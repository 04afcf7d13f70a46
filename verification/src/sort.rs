//! Ordering of the final catalog: entries are sorted by source name, and
//! each entry's records newest release first.
//!
//! A release name is compared version-aware: any leading `v` letters are
//! ignored, then the dot-separated components are compared numerically as
//! long as both parse as integers — newest (largest) first. Where that
//! decides nothing the release strings themselves are compared, descending,
//! and equal releases are ordered by edition, ascending.
use crate::checksum::lemma_find_char_props;
use crate::checksum::find_char;
use crate::checksum::spec_find_char;
use crate::store_data::Config;
use crate::store_data::OS;
use vstd::multiset::Multiset;
use vstd::prelude::*;

verus! {

/// The outcome of a three-way comparison.
#[derive(Clone, Copy, PartialEq, Eq, Structural, Debug)]
pub enum Cmp {
    Less,
    Equal,
    Greater,
}

/// The comparison seen from the other side.
pub open spec fn spec_flip(c: Cmp) -> Cmp {
    match c {
        Cmp::Less => Cmp::Greater,
        Cmp::Equal => Cmp::Equal,
        Cmp::Greater => Cmp::Less,
    }
}

/// Lexicographic comparison of two character sequences by code point; a
/// proper prefix comes first.
#[verifier::opaque]
pub open spec fn spec_str_cmp(a: Seq<char>, b: Seq<char>) -> Cmp
    decreases a.len(),
{
    if a.len() == 0 && b.len() == 0 {
        Cmp::Equal
    } else if a.len() == 0 {
        Cmp::Less
    } else if b.len() == 0 {
        Cmp::Greater
    } else if (a.first() as u32) < (b.first() as u32) {
        Cmp::Less
    } else if (a.first() as u32) > (b.first() as u32) {
        Cmp::Greater
    } else {
        spec_str_cmp(a.drop_first(), b.drop_first())
    }
}

/// Swapping the sides flips a lexicographic comparison.
pub proof fn lemma_str_cmp_flip(a: Seq<char>, b: Seq<char>)
    ensures
        spec_str_cmp(b, a) == spec_flip(spec_str_cmp(a, b)),
    decreases a.len(),
{
    reveal(spec_str_cmp);
    if a.len() > 0 && b.len() > 0 && !((a.first() as u32) < (b.first() as u32)) && !((
    a.first() as u32) > (b.first() as u32)) {
        lemma_str_cmp_flip(a.drop_first(), b.drop_first());
    }
}

/// Compare two string slices lexicographically.
#[verifier::loop_isolation(false)]
pub fn str_cmp(a: &str, b: &str) -> (c: Cmp)
    ensures
        c == spec_str_cmp(a@, b@),
{
    let alen = a.unicode_len();
    let blen = b.unicode_len();
    let mut i: usize = 0;
    proof {
        reveal(spec_str_cmp);
        assert(a@.skip(0) =~= a@);
        assert(b@.skip(0) =~= b@);
    }
    while i < alen && i < blen
        invariant
            i <= alen,
            i <= blen,
            spec_str_cmp(a@, b@) == spec_str_cmp(a@.skip(i as int), b@.skip(i as int)),
        decreases alen - i,
    {
        let ca = a.get_char(i);
        let cb = b.get_char(i);
        proof {
            reveal(spec_str_cmp);
            assert(a@.skip(i as int).first() == a@[i as int]);
            assert(b@.skip(i as int).first() == b@[i as int]);
            assert(a@.skip(i as int).drop_first() =~= a@.skip(i + 1));
            assert(b@.skip(i as int).drop_first() =~= b@.skip(i + 1));
        }
        if (ca as u32) < (cb as u32) {
            return Cmp::Less;
        }
        if (ca as u32) > (cb as u32) {
            return Cmp::Greater;
        }
        i = i + 1;
    }
    proof {
        reveal(spec_str_cmp);
    }
    if i < blen {
        Cmp::Less
    } else if i < alen {
        Cmp::Greater
    } else {
        Cmp::Equal
    }
}

/// Editions are optional; an absent edition comes before any present one.
pub open spec fn spec_opt_str_cmp(a: Option<String>, b: Option<String>) -> Cmp {
    match (a, b) {
        (None, None) => Cmp::Equal,
        (None, Some(_)) => Cmp::Less,
        (Some(_), None) => Cmp::Greater,
        (Some(x), Some(y)) => spec_str_cmp(x@, y@),
    }
}

/// Compare two optional editions.
pub fn opt_str_cmp(a: &Option<String>, b: &Option<String>) -> (c: Cmp)
    ensures
        c == spec_opt_str_cmp(*a, *b),
{
    match (a, b) {
        (None, None) => Cmp::Equal,
        (None, Some(_)) => Cmp::Less,
        (Some(_), None) => Cmp::Greater,
        (Some(x), Some(y)) => str_cmp(x.as_str(), y.as_str()),
    }
}

/// The first index at or after `i` whose character is not a leading `v`.
pub open spec fn spec_skip_v(s: Seq<char>, i: int) -> int
    decreases s.len() - i,
{
    if i < 0 || i >= s.len() {
        s.len() as int
    } else if s[i] == 'v' {
        spec_skip_v(s, i + 1)
    } else {
        i
    }
}

/// `spec_skip_v` stays within bounds.
proof fn lemma_skip_v_bounds(s: Seq<char>, i: int)
    requires
        0 <= i <= s.len(),
    ensures
        i <= spec_skip_v(s, i) <= s.len(),
    decreases s.len() - i,
{
    if i < s.len() && s[i] == 'v' {
        lemma_skip_v_bounds(s, i + 1);
    }
}

/// The release name with its leading `v` letters removed.
pub open spec fn spec_trim_v(s: Seq<char>) -> Seq<char> {
    s.skip(spec_skip_v(s, 0))
}

/// The dot-separated components of `s`, in order; `s` itself when it holds
/// no dot, so an empty string has the one empty component.
pub open spec fn spec_components(s: Seq<char>) -> Seq<Seq<char>>
    decreases s.len()
        via spec_components_decreases
{
    let idx = spec_find_char(s, '.', 0);
    if idx >= s.len() {
        seq![s]
    } else {
        seq![s.take(idx)] + spec_components(s.skip(idx + 1))
    }
}

#[via_fn]
proof fn spec_components_decreases(s: Seq<char>) {
    lemma_find_char_props(s, '.', 0);
}

/// Whether `c` is a decimal digit, and its value.
pub open spec fn spec_is_digit(c: char) -> bool {
    '0' <= c <= '9'
}

/// The numeric value of a digit.
pub open spec fn spec_digit_val(c: char) -> int {
    c as int - '0' as int
}

/// The value of the digit run `s[i..]` continuing from `acc`, or nothing
/// on a non-digit or when the value outgrows the integer type.
pub open spec fn spec_parse_digits(s: Seq<char>, i: int, acc: u64) -> Option<u64>
    decreases s.len() - i,
{
    if i < 0 || i >= s.len() {
        Some(acc)
    } else if !spec_is_digit(s[i]) {
        None
    } else if (acc as int) * 10 + spec_digit_val(s[i]) > u64::MAX as int {
        None
    } else {
        spec_parse_digits(s, i + 1, (acc * 10 + spec_digit_val(s[i]) as u64) as u64)
    }
}

/// The integer a version component denotes: an optional leading plus sign,
/// then at least one digit, denoting a representable value.
pub open spec fn spec_parse_u64(s: Seq<char>) -> Option<u64> {
    let start: int = if s.len() > 0 && s[0] == '+' {
        1
    } else {
        0
    };
    if s.len() <= start {
        None
    } else {
        spec_parse_digits(s, start, 0)
    }
}

/// Parse one version component as an integer.
#[verifier::loop_isolation(false)]
pub fn parse_u64(s: &str) -> (r: Option<u64>)
    ensures
        r == spec_parse_u64(s@),
{
    let n = s.unicode_len();
    let start: usize = if n > 0 && s.get_char(0) == '+' {
        1
    } else {
        0
    };
    if n <= start {
        return None;
    }
    let mut acc: u64 = 0;
    let mut i: usize = start;
    while i < n
        invariant
            start <= i <= n,
            spec_parse_u64(s@) == spec_parse_digits(s@, i as int, acc),
        decreases n - i,
    {
        let c = s.get_char(i);
        if c < '0' || c > '9' {
            return None;
        }
        let d: u64 = (c as u32 as u64) - ('0' as u32 as u64);
        let shifted = match acc.checked_mul(10) {
            Some(x) => x,
            None => {
                return None;
            },
        };
        acc = match shifted.checked_add(d) {
            Some(x) => x,
            None => {
                return None;
            },
        };
        i = i + 1;
    }
    Some(acc)
}

/// The verdict of the numeric phase: walking the two component lists in
/// step, the first pair of unequal integers decides — the larger release
/// comes first; exhaustion of either list, or a component that is no
/// integer, decides nothing.
pub open spec fn spec_numeric_cmp(ca: Seq<Seq<char>>, cb: Seq<Seq<char>>) -> Option<Cmp>
    decreases ca.len(),
{
    if ca.len() == 0 || cb.len() == 0 {
        None
    } else {
        match (spec_parse_u64(ca.first()), spec_parse_u64(cb.first())) {
            (Some(va), Some(vb)) => if va == vb {
                spec_numeric_cmp(ca.drop_first(), cb.drop_first())
            } else if vb < va {
                Some(Cmp::Less)
            } else {
                Some(Cmp::Greater)
            },
            _ => None,
        }
    }
}

/// Swapping the sides flips the numeric phase's verdict.
pub proof fn lemma_numeric_cmp_flip(ca: Seq<Seq<char>>, cb: Seq<Seq<char>>)
    ensures
        spec_numeric_cmp(cb, ca) == (match spec_numeric_cmp(ca, cb) {
            Some(o) => Some(spec_flip(o)),
            None => None::<Cmp>,
        }),
    decreases ca.len(),
{
    if ca.len() > 0 && cb.len() > 0 {
        lemma_numeric_cmp_flip(ca.drop_first(), cb.drop_first());
    }
}

/// How record `a` is ordered against record `b` in one catalog entry:
/// numeric version components first (newest first), then the release
/// strings themselves (descending), then the editions (ascending).
#[verifier::opaque]
pub open spec fn spec_release_cmp(a: Config, b: Config) -> Cmp {
    match spec_numeric_cmp(
        spec_components(spec_trim_v(a.release@)),
        spec_components(spec_trim_v(b.release@)),
    ) {
        Some(o) => o,
        None => {
            let s = spec_str_cmp(b.release@, a.release@);
            if s != Cmp::Equal {
                s
            } else {
                spec_opt_str_cmp(a.edition, b.edition)
            }
        },
    }
}

/// Swapping the sides flips the record order.
pub proof fn lemma_release_cmp_flip(a: Config, b: Config)
    ensures
        spec_release_cmp(b, a) == spec_flip(spec_release_cmp(a, b)),
{
    reveal(spec_release_cmp);
    lemma_numeric_cmp_flip(
        spec_components(spec_trim_v(a.release@)),
        spec_components(spec_trim_v(b.release@)),
    );
    lemma_str_cmp_flip(b.release@, a.release@);
    match (a.edition, b.edition) {
        (Some(x), Some(y)) => lemma_str_cmp_flip(x@, y@),
        _ => (),
    }
}

/// Split a release name into its dot-separated components.
fn components(s: &str) -> (r: Vec<String>)
    ensures
        r@.len() == spec_components(s@).len(),
        forall|k: int| 0 <= k < r@.len() ==> (#[trigger] r@[k])@ == spec_components(s@)[k],
{
    let n = s.unicode_len();
    let mut r: Vec<String> = Vec::new();
    let ghost m = spec_components(s@);
    let mut lo: usize = 0;
    proof {
        assert(s@.skip(0) =~= s@);
    }
    loop
        invariant
            lo <= n,
            n == s@.len(),
            m == spec_components(s@),
            r@.len() <= m.len(),
            forall|k: int| 0 <= k < r@.len() ==> (#[trigger] r@[k])@ == m[k],
            m =~= m.take(r@.len() as int) + spec_components(s@.skip(lo as int)),
        ensures
            r@.len() == m.len(),
            forall|k: int| 0 <= k < r@.len() ==> (#[trigger] r@[k])@ == m[k],
        decreases n - lo + 1,
    {
        let ghost rest = s@.skip(lo as int);
        let idx = find_char(s, n, '.', lo);
        proof {
            assert(spec_find_char(rest, '.', 0) == idx - lo) by {
                lemma_find_char_shift(s@, lo as int, idx as int);
            }
            assert(rest.take(idx - lo) =~= s@.subrange(lo as int, idx as int));
            if idx < n {
                assert(rest.skip(idx - lo + 1) =~= s@.skip(idx + 1));
            }
        }
        let piece = s.substring_char(lo, idx).to_owned();
        r.push(piece);
        proof {
            assert(m.take(r@.len() as int) =~= m.take(r@.len() - 1) + seq![rest.take(idx - lo)]);
        }
        if idx == n {
            proof {
                assert(spec_components(rest) =~= seq![rest.take(idx - lo)]);
                assert(m =~= m.take(r@.len() as int));
            }
            return r;
        }
        proof {
            assert(spec_components(rest) =~= seq![rest.take(idx - lo)] + spec_components(
                s@.skip(idx + 1),
            ));
        }
        lo = idx + 1;
    }
}

/// `spec_find_char` over a suffix mirrors the search over the whole
/// sequence, shifted.
proof fn lemma_find_char_shift(s: Seq<char>, lo: int, idx: int)
    requires
        0 <= lo <= s.len(),
        idx == spec_find_char(s, '.', lo),
    ensures
        spec_find_char(s.skip(lo), '.', 0) == idx - lo,
{
    lemma_find_char_props(s, '.', lo);
    lemma_find_char_suffix(s, lo, lo);
}

/// Searching from `i` in `s` and from `i - lo` in the suffix `s.skip(lo)`
/// find the same character.
proof fn lemma_find_char_suffix(s: Seq<char>, lo: int, i: int)
    requires
        0 <= lo <= i <= s.len(),
    ensures
        spec_find_char(s.skip(lo), '.', i - lo) == spec_find_char(s, '.', i) - lo,
    decreases s.len() - i,
{
    assert(s.skip(lo).len() == s.len() - lo);
    if i < s.len() {
        assert(s.skip(lo)[i - lo] == s[i]);
        if s[i] != '.' {
            lemma_find_char_suffix(s, lo, i + 1);
        }
    }
}

/// Compare two records for the catalog order.
pub fn release_cmp(a: &Config, b: &Config) -> (c: Cmp)
    ensures
        c == spec_release_cmp(*a, *b),
{
    let an = a.release.as_str().unicode_len();
    let bn = b.release.as_str().unicode_len();
    let astart = skip_v(a.release.as_str(), an);
    let bstart = skip_v(b.release.as_str(), bn);
    let ta = a.release.as_str().substring_char(astart, an);
    let tb = b.release.as_str().substring_char(bstart, bn);
    proof {
        assert(ta@ =~= spec_trim_v(a.release@));
        assert(tb@ =~= spec_trim_v(b.release@));
    }
    let ca = components(ta);
    let cb = components(tb);
    let ghost ma = spec_components(spec_trim_v(a.release@));
    let ghost mb = spec_components(spec_trim_v(b.release@));
    let mut i: usize = 0;
    proof {
        reveal(spec_release_cmp);
        assert(ma.skip(0) =~= ma);
        assert(mb.skip(0) =~= mb);
    }
    while i < ca.len() && i < cb.len()
        invariant
            i <= ca@.len(),
            i <= cb@.len(),
            ca@.len() == ma.len(),
            cb@.len() == mb.len(),
            forall|k: int| 0 <= k < ca@.len() ==> (#[trigger] ca@[k])@ == ma[k],
            forall|k: int| 0 <= k < cb@.len() ==> (#[trigger] cb@[k])@ == mb[k],
            ma == spec_components(spec_trim_v(a.release@)),
            mb == spec_components(spec_trim_v(b.release@)),
            spec_numeric_cmp(ma, mb) == spec_numeric_cmp(
                ma.skip(i as int),
                mb.skip(i as int),
            ),
        ensures
            spec_numeric_cmp(ma, mb) is None,
        decreases ca@.len() - i,
    {
        proof {
            reveal(spec_release_cmp);
            assert(ma.skip(i as int).first() == ma[i as int]);
            assert(mb.skip(i as int).first() == mb[i as int]);
            assert(ma.skip(i as int).drop_first() =~= ma.skip(i + 1));
            assert(mb.skip(i as int).drop_first() =~= mb.skip(i + 1));
        }
        match (parse_u64(ca[i].as_str()), parse_u64(cb[i].as_str())) {
            (Some(va), Some(vb)) => {
                if va != vb {
                    if vb < va {
                        return Cmp::Less;
                    } else {
                        return Cmp::Greater;
                    }
                }
            },
            _ => {
                proof {
                    assert(spec_numeric_cmp(ma.skip(i as int), mb.skip(i as int)) is None);
                }
                break ;
            },
        }
        i = i + 1;
    }
    proof {
        reveal(spec_release_cmp);
    }
    let s = str_cmp(b.release.as_str(), a.release.as_str());
    if !matches!(s, Cmp::Equal) {
        return s;
    }
    opt_str_cmp(&a.edition, &b.edition)
}

/// The first index of the release name after its leading `v` letters.
#[verifier::loop_isolation(false)]
fn skip_v(s: &str, n: usize) -> (r: usize)
    requires
        n == s@.len(),
    ensures
        r == spec_skip_v(s@, 0),
        r <= n,
        s@.skip(r as int) == spec_trim_v(s@),
{
    proof {
        lemma_skip_v_bounds(s@, 0);
    }
    let mut k: usize = 0;
    while k < n
        invariant
            k <= n,
            spec_skip_v(s@, 0) == spec_skip_v(s@, k as int),
        decreases n - k,
    {
        if s.get_char(k) != 'v' {
            return k;
        }
        k = k + 1;
    }
    k
}

/// Each record of an entry is not ordered after its successor.
pub open spec fn spec_releases_sorted(rs: Seq<Config>) -> bool {
    forall|k: int|
        0 <= k < rs.len() - 1 ==> spec_release_cmp(#[trigger] rs[k], rs[k + 1]) != Cmp::Greater
}

/// Each catalog entry's name is not ordered after its successor's.
pub open spec fn spec_entries_sorted(es: Seq<OS>) -> bool {
    forall|k: int|
        0 <= k < es.len() - 1 ==> spec_str_cmp((#[trigger] es[k]).name@, es[k + 1].name@)
            != Cmp::Greater
}

/// Inserting an element anywhere adds exactly it to the collection.
proof fn lemma_insert_multiset<A>(s: Seq<A>, i: int, x: A)
    requires
        0 <= i <= s.len(),
    ensures
        s.insert(i, x).to_multiset() == s.to_multiset().insert(x),
{
    broadcast use vstd::seq_lib::group_to_multiset_ensures;

    let ins = s.insert(i, x);
    assert(ins =~= s.take(i).push(x) + s.skip(i));
    assert(s =~= s.take(i) + s.skip(i));
    vstd::seq_lib::lemma_multiset_commutative(s.take(i).push(x), s.skip(i));
    vstd::seq_lib::lemma_multiset_commutative(s.take(i), s.skip(i));
    assert(s.take(i).push(x).to_multiset() =~= s.take(i).to_multiset().insert(x));
    assert(ins.to_multiset() =~= s.to_multiset().insert(x));
}

/// Inserting a record at its found position keeps the list ordered.
#[verifier::rlimit(100)]
#[verifier::spinoff_prover]
proof fn lemma_insert_release_order(before: Seq<Config>, x: Config, p: int)
    requires
        spec_releases_sorted(before),
        0 <= p <= before.len(),
        forall|k: int| p <= k < before.len() ==> spec_release_cmp(#[trigger] before[k], x) == Cmp::Greater,
        p > 0 ==> spec_release_cmp(before[p - 1], x) != Cmp::Greater,
    ensures
        spec_releases_sorted(before.insert(p, x)),
{
    let after = before.insert(p, x);
    before.insert_ensures(p, x);
    assert forall|k: int|
        0 <= k < after.len() - 1 implies spec_release_cmp(#[trigger] after[k], after[k + 1])
        != Cmp::Greater by {
        if k < p - 1 {
            assert(after[k] == before[k]);
            assert(after[k + 1] == before[k + 1]);
            assert(spec_release_cmp(before[k], before[k + 1]) != Cmp::Greater);
        } else if k == p - 1 {
            assert(after[k] == before[k]);
            assert(after[k + 1] == x);
            assert(spec_release_cmp(before[k], x) != Cmp::Greater);
        } else if k == p {
            assert(after[k] == x);
            assert(after[k + 1] == before[k]);
            assert(spec_release_cmp(before[k], x) == Cmp::Greater);
            lemma_release_cmp_flip(before[k], x);
        } else {
            assert(after[k] == before[k - 1]);
            assert(after[k + 1] == before[k]);
            assert(spec_release_cmp(before[k - 1], before[k]) != Cmp::Greater);
        }
    }
}

/// Inserting an entry at its found position keeps the names ordered.
#[verifier::rlimit(100)]
#[verifier::spinoff_prover]
proof fn lemma_insert_entry_order(before: Seq<OS>, x: OS, p: int)
    requires
        spec_entries_sorted(before),
        0 <= p <= before.len(),
        forall|k: int|
            p <= k < before.len() ==> spec_str_cmp((#[trigger] before[k]).name@, x.name@)
                == Cmp::Greater,
        p > 0 ==> spec_str_cmp(before[p - 1].name@, x.name@) != Cmp::Greater,
    ensures
        spec_entries_sorted(before.insert(p, x)),
{
    let after = before.insert(p, x);
    before.insert_ensures(p, x);
    assert forall|k: int|
        0 <= k < after.len() - 1 implies spec_str_cmp(
        (#[trigger] after[k]).name@,
        after[k + 1].name@,
    ) != Cmp::Greater by {
        if k < p - 1 {
            assert(after[k] == before[k]);
            assert(after[k + 1] == before[k + 1]);
            assert(spec_str_cmp(before[k].name@, before[k + 1].name@) != Cmp::Greater);
        } else if k == p - 1 {
            assert(after[k] == before[k]);
            assert(after[k + 1] == x);
            assert(spec_str_cmp(before[k].name@, x.name@) != Cmp::Greater);
        } else if k == p {
            assert(after[k] == x);
            assert(after[k + 1] == before[k]);
            assert(spec_str_cmp(before[k].name@, x.name@) == Cmp::Greater);
            lemma_str_cmp_flip(before[k].name@, x.name@);
        } else {
            assert(after[k] == before[k - 1]);
            assert(after[k + 1] == before[k]);
            assert(spec_str_cmp(before[k - 1].name@, before[k].name@) != Cmp::Greater);
        }
    }
}

/// Place one record into an already ordered list, keeping it ordered.
#[verifier::rlimit(50)]
fn insert_release_sorted(r: &mut Vec<Config>, x: Config) -> (p: usize)
    requires
        spec_releases_sorted(old(r)@),
    ensures
        p <= old(r)@.len(),
        final(r)@ == old(r)@.insert(p as int, x),
        spec_releases_sorted(final(r)@),
{
    let mut p: usize = r.len();
    while p > 0
        invariant
            p <= r@.len(),
            forall|k: int|
                p <= k < r@.len() ==> spec_release_cmp(#[trigger] r@[k], x) == Cmp::Greater,
        ensures
            p <= r@.len(),
            forall|k: int|
                p <= k < r@.len() ==> spec_release_cmp(#[trigger] r@[k], x) == Cmp::Greater,
            p > 0 ==> spec_release_cmp(r@[p - 1], x) != Cmp::Greater,
        decreases p,
    {
        let stop = !matches!(release_cmp(&r[p - 1], &x), Cmp::Greater);
        if stop {
            break ;
        }
        p = p - 1;
    }
    let ghost before = r@;
    r.insert(p, x);
    proof {
        lemma_insert_release_order(before, x, p as int);
    }
    p
}

/// Place one entry into an already name-ordered list, keeping it ordered.
#[verifier::rlimit(50)]
fn insert_entry_sorted(r: &mut Vec<OS>, x: OS) -> (p: usize)
    requires
        spec_entries_sorted(old(r)@),
    ensures
        p <= old(r)@.len(),
        final(r)@ == old(r)@.insert(p as int, x),
        spec_entries_sorted(final(r)@),
{
    let mut p: usize = r.len();
    while p > 0
        invariant
            p <= r@.len(),
            forall|k: int|
                p <= k < r@.len() ==> spec_str_cmp((#[trigger] r@[k]).name@, x.name@)
                    == Cmp::Greater,
        ensures
            p <= r@.len(),
            forall|k: int|
                p <= k < r@.len() ==> spec_str_cmp((#[trigger] r@[k]).name@, x.name@)
                    == Cmp::Greater,
            p > 0 ==> spec_str_cmp(r@[p - 1].name@, x.name@) != Cmp::Greater,
        decreases p,
    {
        let stop = !matches!(str_cmp(r[p - 1].name.as_str(), x.name.as_str()), Cmp::Greater);
        if stop {
            break ;
        }
        p = p - 1;
    }
    let ghost before = r@;
    r.insert(p, x);
    proof {
        lemma_insert_entry_order(before, x, p as int);
    }
    p
}

/// Order one entry's records, newest release first, keeping exactly the
/// same records.
#[verifier::rlimit(50)]
pub fn sort_releases(records: Vec<Config>) -> (r: Vec<Config>)
    ensures
        r@.to_multiset() == records@.to_multiset(),
        spec_releases_sorted(r@),
{
    let ghost orig = records@;
    let mut records = records;
    let mut r: Vec<Config> = Vec::new();
    proof {
        broadcast use vstd::seq_lib::group_to_multiset_ensures;
        broadcast use vstd::multiset::lemma_multiset_empty_len;

        assert(r@.to_multiset().len() == 0);
        assert(orig.to_multiset() =~= r@.to_multiset().add(records@.to_multiset()));
    }
    while records.len() > 0
        invariant
            orig.to_multiset() == r@.to_multiset().add(records@.to_multiset()),
            spec_releases_sorted(r@),
        decreases records@.len(),
    {
        let ghost rec_before = records@;
        let ghost r_before = r@;
        let x = records.remove(0);
        let p = insert_release_sorted(&mut r, x);
        proof {
            broadcast use vstd::seq_lib::group_to_multiset_ensures;

            assert(rec_before.remove(0).to_multiset() =~= rec_before.to_multiset().remove(x));
            assert(rec_before.contains(x)) by {
                assert(rec_before[0] == x);
            }
            assert(rec_before.to_multiset().count(x) > 0);
            lemma_insert_multiset(r_before, p as int, x);
            assert(r@.to_multiset().add(records@.to_multiset()) =~= r_before.to_multiset().add(
                rec_before.to_multiset(),
            ));
        }
    }
    proof {
        broadcast use vstd::seq_lib::group_to_multiset_ensures;
        broadcast use vstd::multiset::lemma_multiset_empty_len;

        assert(records@.to_multiset().len() == 0);
        assert(r@.to_multiset() =~= orig.to_multiset());
    }
    r
}

/// A mapping applied to the same collection yields the same collection of
/// images, whatever the order.
proof fn lemma_map_values_multiset<A, B>(s1: Seq<A>, s2: Seq<A>, f: spec_fn(A) -> B)
    requires
        s1.to_multiset() == s2.to_multiset(),
    ensures
        s1.map_values(f).to_multiset() == s2.map_values(f).to_multiset(),
    decreases s1.len(),
{
    broadcast use vstd::seq_lib::group_to_multiset_ensures;

    if s1.len() == 0 {
        assert(s1.to_multiset().len() == 0);
        assert(s2.to_multiset().len() == s2.len());
        assert(s2.len() == 0);
        assert(s1.map_values(f) =~= Seq::<B>::empty());
        assert(s2.map_values(f) =~= Seq::<B>::empty());
    } else {
        let x = s1.last();
        let d1 = s1.drop_last();
        assert(s1 =~= d1.push(x));
        assert(s1.to_multiset() =~= d1.to_multiset().insert(x));
        assert(s2.to_multiset().count(x) > 0);
        assert(s2.contains(x));
        let j = choose|j: int| 0 <= j < s2.len() && s2[j] == x;
        let d2 = s2.remove(j);
        assert(d2.to_multiset() =~= s2.to_multiset().remove(x));
        assert(d1.to_multiset() =~= s1.to_multiset().remove(x));
        lemma_map_values_multiset(d1, d2, f);
        let m1 = s1.map_values(f);
        let m2 = s2.map_values(f);
        assert(m1 =~= d1.map_values(f).push(f(x)));
        assert(m1.to_multiset() =~= d1.map_values(f).to_multiset().insert(f(x)));
        assert(d2.map_values(f) =~= m2.remove(j));
        assert(m2.remove(j).to_multiset() =~= m2.to_multiset().remove(f(x)));
        assert(m2.contains(f(x))) by {
            assert(m2[j] == f(x));
        }
        assert(m2.to_multiset().count(f(x)) > 0);
        assert(m2.to_multiset() =~= d2.map_values(f).to_multiset().insert(f(x)));
        assert(m1.to_multiset() =~= m2.to_multiset());
    }
}

/// Inserting an entry whose records are ordered keeps every entry's
/// records ordered.
#[verifier::rlimit(100)]
#[verifier::spinoff_prover]
proof fn lemma_insert_entry_releases(before: Seq<OS>, x: OS, p: int)
    requires
        0 <= p <= before.len(),
        forall|k: int|
            0 <= k < before.len() ==> spec_releases_sorted((#[trigger] before[k]).releases@),
        spec_releases_sorted(x.releases@),
    ensures
        forall|k: int|
            0 <= k < before.insert(p, x).len() ==> spec_releases_sorted(
                (#[trigger] before.insert(p, x)[k]).releases@,
            ),
{
    let after = before.insert(p, x);
    before.insert_ensures(p, x);
    assert forall|k: int|
        0 <= k < after.len() implies spec_releases_sorted((#[trigger] after[k]).releases@) by {
        if k < p {
            assert(after[k] == before[k]);
            assert(spec_releases_sorted(before[k].releases@));
        } else if k == p {
            assert(after[k] == x);
        } else {
            assert(after[k] == before[k - 1]);
            assert(spec_releases_sorted(before[k - 1].releases@));
        }
    }
}

/// What the catalog order may not change about an entry: its identity and
/// its collection of records.
pub open spec fn spec_entry_key(o: OS) -> (String, String, Option<String>, Option<String>, Multiset<
    Config,
>) {
    (o.name, o.pretty_name, o.homepage, o.description, o.releases@.to_multiset())
}

/// Order the whole catalog: entries by source name, and each entry's
/// records newest release first. No entry appears, disappears, or changes
/// beyond the reordering of its records.
#[verifier::rlimit(50)]
pub fn distro_sort(catalog: Vec<OS>) -> (r: Vec<OS>)
    ensures
        r@.len() == catalog@.len(),
        spec_entries_sorted(r@),
        forall|k: int| 0 <= k < r@.len() ==> spec_releases_sorted((#[trigger] r@[k]).releases@),
        r@.map_values(|o: OS| spec_entry_key(o)).to_multiset() == catalog@.map_values(
            |o: OS| spec_entry_key(o),
        ).to_multiset(),
{
    let ghost orig = catalog@;
    let mut rest = catalog;
    let mut staged: Vec<OS> = Vec::new();
    while rest.len() > 0
        invariant
            rest@.len() <= orig.len(),
            staged@.len() == orig.len() - rest@.len(),
            rest@ == orig.subrange(orig.len() - rest@.len(), orig.len() as int),
            forall|k: int|
                0 <= k < staged@.len() ==> spec_entry_key(#[trigger] staged@[k]) == spec_entry_key(
                    orig[k],
                ) && spec_releases_sorted(staged@[k].releases@),
        decreases rest@.len(),
    {
        let mut os = rest.remove(0);
        let sorted = sort_releases(os.releases);
        os.releases = sorted;
        staged.push(os);
        proof {
            assert(rest@ =~= orig.subrange(orig.len() - rest@.len(), orig.len() as int));
        }
    }
    let ghost skey = |o: OS| spec_entry_key(o);
    proof {
        assert(staged@.map_values(skey) =~= orig.map_values(skey));
    }
    let ghost staged_view = staged@;
    let mut rest = staged;
    let mut r: Vec<OS> = Vec::new();
    proof {
        broadcast use vstd::seq_lib::group_to_multiset_ensures;
        broadcast use vstd::multiset::lemma_multiset_empty_len;

        assert(r@.to_multiset().len() == 0);
        assert(staged_view.to_multiset() =~= r@.to_multiset().add(rest@.to_multiset()));
    }
    while rest.len() > 0
        invariant
            staged_view.to_multiset() == r@.to_multiset().add(rest@.to_multiset()),
            spec_entries_sorted(r@),
            forall|k: int|
                0 <= k < r@.len() ==> spec_releases_sorted((#[trigger] r@[k]).releases@),
            forall|k: int|
                0 <= k < rest@.len() ==> spec_releases_sorted((#[trigger] rest@[k]).releases@),
            r@.len() + rest@.len() == staged_view.len(),
        decreases rest@.len(),
    {
        let ghost rest_before = rest@;
        let ghost r_before = r@;
        let x = rest.remove(0);
        let p = insert_entry_sorted(&mut r, x);
        proof {
            broadcast use vstd::seq_lib::group_to_multiset_ensures;

            assert(rest_before.remove(0).to_multiset() =~= rest_before.to_multiset().remove(x));
            assert(rest_before.contains(x)) by {
                assert(rest_before[0] == x);
            }
            assert(rest_before.to_multiset().count(x) > 0);
            lemma_insert_multiset(r_before, p as int, x);
            assert(r@.to_multiset().add(rest@.to_multiset()) =~= r_before.to_multiset().add(
                rest_before.to_multiset(),
            ));
            assert(spec_releases_sorted(x.releases@)) by {
                assert(x == rest_before[0]);
            }
            lemma_insert_entry_releases(r_before, x, p as int);
        }
    }
    proof {
        broadcast use vstd::seq_lib::group_to_multiset_ensures;
        broadcast use vstd::multiset::lemma_multiset_empty_len;

        assert(rest@.to_multiset().len() == 0);
        assert(r@.to_multiset() =~= staged_view.to_multiset());
        lemma_map_values_multiset(r@, staged_view, skey);
        assert(staged_view.map_values(skey) =~= orig.map_values(skey));
        assert(r@.map_values(|o: OS| spec_entry_key(o)) == r@.map_values(skey));
        assert(orig.map_values(|o: OS| spec_entry_key(o)) == orig.map_values(skey));
    }
    r
}

} // verus!
