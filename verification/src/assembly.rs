//! Catalog assembly for one source: validate every candidate record the
//! source's generator produced, retain the valid ones in generator order,
//! and emit a catalog entry only when at least one record survives.
//!
//! A source whose generator yields nothing or an empty list is dropped
//! entirely, as is one whose records all fail validation: no empty entry is
//! ever emitted. A record's failure never affects another record.
use crate::store_data::Config;
use crate::store_data::OS;
use crate::store_data::SourceMeta;
use crate::validate::ProbeTable;
use crate::validate::lemma_all_valid_replay;
use crate::validate::record_valid;
use crate::validate::spec_record_urls;
use crate::validate::spec_record_valid;
use vstd::prelude::*;

verus! {

/// The records whose verdict is true, in order.
pub open spec fn spec_retained(records: Seq<Config>, verdicts: Seq<bool>) -> Seq<Config>
    decreases records.len(),
{
    if records.len() == 0 || verdicts.len() == 0 {
        Seq::empty()
    } else {
        spec_retained(records.drop_last(), verdicts.drop_last()) + (if verdicts.last() {
            seq![records.last()]
        } else {
            Seq::empty()
        })
    }
}

/// Keep the records whose verdict is true, in order.
pub fn retained_records(records: Vec<Config>, verdicts: &Vec<bool>) -> (r: Vec<Config>)
    requires
        verdicts@.len() == records@.len(),
    ensures
        r@ == spec_retained(records@, verdicts@),
{
    let ghost orig = records@;
    let total = records.len();
    let mut records = records;
    let mut r: Vec<Config> = Vec::new();
    let mut i: usize = 0;
    while records.len() > 0
        invariant
            verdicts@.len() == orig.len(),
            orig.len() == total,
            records@.len() <= orig.len(),
            i == orig.len() - records@.len(),
            records@ == orig.subrange(i as int, orig.len() as int),
            r@ == spec_retained(orig.take(i as int), verdicts@.take(i as int)),
        decreases records@.len(),
    {
        let c = records.remove(0);
        let keep = verdicts[i];
        if keep {
            r.push(c);
        }
        proof {
            assert(orig.take(i + 1).drop_last() =~= orig.take(i as int));
            assert(verdicts@.take(i + 1).drop_last() =~= verdicts@.take(i as int));
            assert(orig.take(i + 1).last() == orig[i as int]);
            assert(verdicts@.take(i + 1).last() == verdicts@[i as int]);
            assert(records@ =~= orig.subrange(i + 1, orig.len() as int));
        }
        i = i + 1;
    }
    proof {
        assert(orig.take(orig.len() as int) =~= orig);
        assert(verdicts@.take(orig.len() as int) =~= verdicts@);
    }
    r
}

/// The verdict of every record under one probe table, in record order.
pub open spec fn spec_verdicts(records: Seq<Config>, table: ProbeTable) -> Seq<bool> {
    Seq::new(records.len(), |i: int| spec_record_valid(records[i], table))
}

/// Validate every record against the table, in order; one record's
/// failure never affects another's verdict.
pub fn validate_records(records: &Vec<Config>, table: &ProbeTable) -> (v: Vec<bool>)
    ensures
        v@ == spec_verdicts(records@, *table),
{
    let mut v: Vec<bool> = Vec::new();
    let mut i: usize = 0;
    while i < records.len()
        invariant
            i <= records@.len(),
            v@.len() == i,
            forall|j: int| 0 <= j < i ==> v@[j] == spec_record_valid(#[trigger] records@[j], *table),
        decreases records@.len() - i,
    {
        v.push(record_valid(&records[i], table));
        i = i + 1;
    }
    proof {
        assert(v@ =~= spec_verdicts(records@, *table));
    }
    v
}

/// Assemble the catalog entry for one source from what its generator
/// produced and the per-record verdicts: the entry carries the source's
/// identity and the retained records in generator order, and is emitted
/// only when the generator produced something and at least one record
/// survived.
pub fn assemble_source(meta: SourceMeta, generated: Option<Vec<Config>>, verdicts: &Vec<bool>) -> (r:
    Option<OS>)
    requires
        (match generated {
            Some(g) => verdicts@.len() == g@.len(),
            None => true,
        }),
    ensures
        (match generated {
            None => r is None,
            Some(g) => ({
                let kept = spec_retained(g@, verdicts@);
                if g@.len() == 0 || kept.len() == 0 {
                    r is None
                } else {
                    match r {
                        Some(os) => os.name == meta.name && os.pretty_name == meta.pretty_name
                            && os.homepage == meta.homepage && os.description == meta.description
                            && os.releases@ == kept,
                        None => false,
                    }
                }
            }),
        }),
{
    let g = match generated {
        Some(g) => g,
        None => {
            return None;
        },
    };
    if g.len() == 0 {
        return None;
    }
    let releases = retained_records(g, verdicts);
    if releases.len() == 0 {
        return None;
    }
    Some(
        OS {
            name: meta.name,
            pretty_name: meta.pretty_name,
            homepage: meta.homepage,
            description: meta.description,
            releases,
        },
    )
}

/// Validate and assemble in one step, against a probe table: the whole
/// generate-validate-filter pipeline for one source, minus the probing
/// itself.
pub fn validate_and_assemble(
    meta: SourceMeta,
    generated: Option<Vec<Config>>,
    table: &ProbeTable,
) -> (r: Option<OS>)
    ensures
        (match generated {
            None => r is None,
            Some(g) => ({
                let kept = spec_retained(g@, spec_verdicts(g@, *table));
                if g@.len() == 0 || kept.len() == 0 {
                    r is None
                } else {
                    match r {
                        Some(os) => os.name == meta.name && os.pretty_name == meta.pretty_name
                            && os.homepage == meta.homepage && os.description == meta.description
                            && os.releases@ == kept,
                        None => false,
                    }
                }
            }),
        }),
{
    match generated {
        None => None,
        Some(g) => {
            let verdicts = validate_records(&g, table);
            assemble_source(meta, Some(g), &verdicts)
        },
    }
}

/// A source whose records all fail validation retains nothing — together
/// with the assembly contract, such a source never appears in the final
/// catalog, just like one whose generator yields nothing or an empty list.
pub proof fn lemma_all_failed_retains_nothing(records: Seq<Config>, verdicts: Seq<bool>)
    requires
        verdicts.len() == records.len(),
        forall|i: int| 0 <= i < verdicts.len() ==> !verdicts[i],
    ensures
        spec_retained(records, verdicts) == Seq::<Config>::empty(),
    decreases records.len(),
{
    if records.len() > 0 {
        lemma_all_failed_retains_nothing(records.drop_last(), verdicts.drop_last());
        assert(spec_retained(records, verdicts) =~= Seq::<Config>::empty());
    }
}

/// Validation replay is deterministic: two probe tables that answer every
/// URL of every record identically produce identical verdicts, and so an
/// identical retained-record set.
pub proof fn lemma_verdicts_replay(records: Seq<Config>, t1: ProbeTable, t2: ProbeTable)
    requires
        forall|i: int, j: int|
            0 <= i < records.len() && 0 <= j < spec_record_urls(records[i]).len()
                ==> t1.spec_outcome_of(#[trigger] spec_record_urls(records[i])[j]@)
                == t2.spec_outcome_of(spec_record_urls(records[i])[j]@),
    ensures
        spec_verdicts(records, t1) == spec_verdicts(records, t2),
        spec_retained(records, spec_verdicts(records, t1)) == spec_retained(
            records,
            spec_verdicts(records, t2),
        ),
{
    assert forall|i: int| 0 <= i < records.len() implies spec_record_valid(
        #[trigger] records[i],
        t1,
    ) == spec_record_valid(records[i], t2) by {
        lemma_all_valid_replay(spec_record_urls(records[i]), t1, t2);
    }
    assert(spec_verdicts(records, t1) =~= spec_verdicts(records, t2));
}

} // verus!
