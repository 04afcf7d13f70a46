//! Depth-specific fan-out flatten combinators.
//!
//! A fan-out launches many independent units and collects one result per
//! unit, in unit order. Each unit's result may be nested through a known
//! number of optional/list wrappers; these combinators collapse exactly that
//! nesting depth, discarding absent and empty values at every intermediate
//! level, and preserve both the originating-unit order and the order of
//! values within one unit.
use vstd::prelude::*;

verus! {

/// Meaning of collapsing one `Option` wrapper: every present value is kept,
/// in order, and every absent one disappears.
pub open spec fn spec_flatten_options<T>(s: Seq<Option<T>>) -> Seq<T>
    decreases s.len(),
{
    if s.len() == 0 {
        Seq::empty()
    } else {
        spec_flatten_options(s.drop_last())
            + (match s.last() {
            Some(v) => seq![v],
            None => Seq::empty(),
        })
    }
}

/// Meaning of collapsing one list wrapper: the lists are concatenated in
/// unit order; empty lists contribute nothing.
pub open spec fn spec_flatten_lists<T>(s: Seq<Vec<T>>) -> Seq<T>
    decreases s.len(),
{
    if s.len() == 0 {
        Seq::empty()
    } else {
        spec_flatten_lists(s.drop_last()) + s.last()@
    }
}

/// Meaning of collapsing one optional-list wrapper (nesting depth one):
/// absent units disappear, present lists are concatenated in unit order.
pub open spec fn spec_flatten_opt_lists<T>(s: Seq<Option<Vec<T>>>) -> Seq<T>
    decreases s.len(),
{
    if s.len() == 0 {
        Seq::empty()
    } else {
        spec_flatten_opt_lists(s.drop_last())
            + (match s.last() {
            Some(l) => l@,
            None => Seq::empty(),
        })
    }
}

/// Meaning of collapsing two optional-list wrappers (nesting depth two):
/// the outer level is collapsed first, then the inner one.
pub open spec fn spec_flatten_opt_lists_depth2<T>(
    s: Seq<Option<Vec<Option<Vec<T>>>>>,
) -> Seq<T> {
    spec_flatten_opt_lists(spec_flatten_opt_lists(s))
}

/// Collapse one `Option` wrapper, keeping present values in unit order.
pub fn flatten_options<T>(units: Vec<Option<T>>) -> (r: Vec<T>)
    ensures
        r@ == spec_flatten_options(units@),
{
    let ghost orig = units@;
    let mut units = units;
    let mut r: Vec<T> = Vec::new();
    while units.len() > 0
        invariant
            units@.len() <= orig.len(),
            units@ == orig.subrange(orig.len() - units@.len(), orig.len() as int),
            r@ == spec_flatten_options(orig.take(orig.len() - units@.len())),
        decreases units@.len(),
    {
        let ghost done = orig.len() - units@.len();
        let u = units.remove(0);
        match u {
            Some(v) => r.push(v),
            None => (),
        }
        proof {
            assert(orig.take(done + 1).drop_last() =~= orig.take(done));
            assert(orig.take(done + 1).last() == orig[done]);
            assert(units@ =~= orig.subrange(orig.len() - units@.len(), orig.len() as int));
        }
    }
    proof {
        assert(orig.take(orig.len() as int) =~= orig);
    }
    r
}

/// Collapse one list wrapper, concatenating the lists in unit order.
pub fn flatten_lists<T>(units: Vec<Vec<T>>) -> (r: Vec<T>)
    ensures
        r@ == spec_flatten_lists(units@),
{
    let ghost orig = units@;
    let mut units = units;
    let mut r: Vec<T> = Vec::new();
    while units.len() > 0
        invariant
            units@.len() <= orig.len(),
            units@ == orig.subrange(orig.len() - units@.len(), orig.len() as int),
            r@ == spec_flatten_lists(orig.take(orig.len() - units@.len())),
        decreases units@.len(),
    {
        let ghost done = orig.len() - units@.len();
        let mut u = units.remove(0);
        r.append(&mut u);
        proof {
            assert(orig.take(done + 1).drop_last() =~= orig.take(done));
            assert(orig.take(done + 1).last() == orig[done]);
            assert(units@ =~= orig.subrange(orig.len() - units@.len(), orig.len() as int));
        }
    }
    proof {
        assert(orig.take(orig.len() as int) =~= orig);
    }
    r
}

/// Collapse an optional-list wrapper (depth one). This is the shape every
/// generator's sub-fetches produce: a unit either fails (`None`) or yields a
/// list of values.
pub fn flatten_opt_lists<T>(units: Vec<Option<Vec<T>>>) -> (r: Vec<T>)
    ensures
        r@ == spec_flatten_opt_lists(units@),
{
    let ghost orig = units@;
    let mut units = units;
    let mut r: Vec<T> = Vec::new();
    while units.len() > 0
        invariant
            units@.len() <= orig.len(),
            units@ == orig.subrange(orig.len() - units@.len(), orig.len() as int),
            r@ == spec_flatten_opt_lists(orig.take(orig.len() - units@.len())),
        decreases units@.len(),
    {
        let ghost done = orig.len() - units@.len();
        let u = units.remove(0);
        match u {
            Some(mut l) => r.append(&mut l),
            None => (),
        }
        proof {
            assert(orig.take(done + 1).drop_last() =~= orig.take(done));
            assert(orig.take(done + 1).last() == orig[done]);
            assert(units@ =~= orig.subrange(orig.len() - units@.len(), orig.len() as int));
        }
    }
    proof {
        assert(orig.take(orig.len() as int) =~= orig);
    }
    r
}

/// Collapse two optional-list wrappers (depth two), outer level first.
pub fn flatten_opt_lists_depth2<T>(units: Vec<Option<Vec<Option<Vec<T>>>>>) -> (r: Vec<T>)
    ensures
        r@ == spec_flatten_opt_lists_depth2(units@),
{
    let mid: Vec<Option<Vec<T>>> = flatten_opt_lists(units);
    flatten_opt_lists(mid)
}

} // verus!
