use crate::cli::{
    has_name, no_constraint, record_matches, rendered_record, FilterSpec, NameRecord, ReadArgs,
    WriteArgs,
};
use crate::text::{decimal, decimal_text};
use vstd::prelude::*;
use vstd::string::*;

verus! {

/// All names stored, in the order in which they were noted down. A name may
/// occur more than once.
#[derive(Debug)]
pub struct Names(pub Vec<WriteArgs>);

/// The records that a sequence of stored names stands for.
pub open spec fn records_of(names: Seq<WriteArgs>) -> Seq<NameRecord> {
    names.map_values(|name: WriteArgs| name@)
}

impl View for Names {
    type V = Seq<NameRecord>;

    open spec fn view(&self) -> Seq<NameRecord> {
        records_of(self.0@)
    }
}

/// Every record of `records` has a name.
pub open spec fn all_named(records: Seq<NameRecord>) -> bool {
    forall|i: int| 0 <= i < records.len() ==> has_name(#[trigger] records[i])
}

/// The records of `records` that meet `filter`, in the order in which
/// `records` holds them.
pub open spec fn filtered(records: Seq<NameRecord>, filter: FilterSpec) -> Seq<NameRecord> {
    records.filter(|record: NameRecord| record_matches(record, filter))
}

/// `existing` followed by `added`.
pub open spec fn appended(existing: Seq<NameRecord>, added: Seq<NameRecord>) -> Seq<NameRecord> {
    existing + added
}

/// The reports on the records of `records`, each followed by an empty line.
pub open spec fn rendered_entries(records: Seq<NameRecord>) -> Seq<char>
    decreases records.len(),
{
    if records.len() == 0 {
        Seq::empty()
    } else {
        rendered_entries(records.drop_last()) + rendered_record(records.last()) + "\n"@
    }
}

/// The report on a collection: how many names it holds, then the report on
/// each of them.
pub open spec fn rendered_names(records: Seq<NameRecord>) -> Seq<char> {
    "\n"@ + decimal(records.len()) + " Names found: \n\n"@ + rendered_entries(records)
}

impl Names {
    /// Appends the names of `new_names` to these, in their order. Nothing is
    /// dropped and nothing is compared: a name that is already there is
    /// stored once more.
    pub fn append_new_names(self, new_names: Names) -> (all: Names)
        ensures
            all@ == appended(self@, new_names@),
            all_named(self@) && all_named(new_names@) ==> all_named(all@),
    {
        let ghost existing = self.0@;
        let ghost added = new_names.0@;
        let mut names = self.0;
        let mut others = new_names.0;
        names.append(&mut others);
        assert(records_of(existing + added) =~= records_of(existing) + records_of(added));
        Names(names)
    }

    /// The names that meet every constraint of `args`, in the order in which
    /// they are stored. Where none does, the result is empty.
    pub fn filtered_list(self, args: ReadArgs) -> (found: Names)
        ensures
            found@ == filtered(self@, args@),
            all_named(self@) ==> all_named(found@),
    {
        let ghost all = self@;
        let mut kept: Vec<WriteArgs> = Vec::new();
        for name in it: self.0
            invariant
                records_of(it.seq()) == all,
                records_of(kept@) == filtered(all.take(it.index() as int), args@),
        {
            let ghost seen = all.take(it.index() as int);
            let ghost before = kept@;
            proof {
                assert(all.take(it.index() + 1) =~= seen.push(name@));
                seen.lemma_filter_push(name@, |record: NameRecord| record_matches(record, args@));
            }
            if name.matches_readargs(&args) {
                kept.push(name);
                assert(records_of(kept@) =~= records_of(before).push(name@));
            }
        }
        assert(all.take(all.len() as int) =~= all);
        proof {
            if all_named(all) {
                lemma_filter_keeps_names(all, args@);
            }
        }
        Names(kept)
    }

    /// Writes the report on these names: see [`rendered_names`].
    pub fn to_string(&self) -> (out: String)
        ensures
            out@ == rendered_names(self@),
    {
        let mut entries = String::new();
        let mut i: usize = 0;
        while i < self.0.len()
            invariant
                i <= self.0.len(),
                entries@ == rendered_entries(self@.take(i as int)),
            decreases self.0.len() - i,
        {
            let entry = self.0[i].to_string();
            entries.append(entry.as_str());
            entries.append("\n");
            proof {
                let next = self@.take(i + 1);
                assert(next.drop_last() =~= self@.take(i as int));
                assert(next.last() == self.0[i as int]@);
            }
            i += 1;
        }
        assert(self@.take(i as int) =~= self@);
        let count = decimal_text(self.0.len());
        let mut out = String::new();
        out.append("\n");
        out.append(count.as_str());
        out.append(" Names found: \n\n");
        out.append(entries.as_str());
        assert(out@ =~= rendered_names(self@));
        out
    }
}

/// Filtering what a filter has already let through, by the same filter,
/// changes nothing.
pub proof fn lemma_filter_idempotent(records: Seq<NameRecord>, filter: FilterSpec)
    ensures
        filtered(filtered(records, filter), filter) == filtered(records, filter),
    decreases records.len(),
{
    let pred = |record: NameRecord| record_matches(record, filter);
    reveal(Seq::filter);
    if records.len() > 0 {
        let rest = records.drop_last();
        lemma_filter_idempotent(rest, filter);
        assert(records =~= rest.push(records.last()));
        rest.lemma_filter_push(records.last(), pred);
        if pred(records.last()) {
            rest.filter(pred).lemma_filter_push(records.last(), pred);
        }
    }
}

/// A filter without constraints gives the collection back as it is: the
/// same records in the same order.
pub proof fn lemma_filter_without_constraint(records: Seq<NameRecord>, filter: FilterSpec)
    requires
        no_constraint(filter),
    ensures
        filtered(records, filter) == records,
    decreases records.len(),
{
    let pred = |record: NameRecord| record_matches(record, filter);
    reveal(Seq::filter);
    if records.len() > 0 {
        let rest = records.drop_last();
        lemma_filter_without_constraint(rest, filter);
        assert(pred(records.last()));
        assert(records =~= rest.push(records.last()));
    }
}

/// A filter lets through exactly the records that meet it: what it gives
/// holds a record if and only if the collection holds it and it meets the
/// filter.
pub proof fn lemma_filtered_members(
    records: Seq<NameRecord>,
    filter: FilterSpec,
    record: NameRecord,
)
    ensures
        filtered(records, filter).contains(record) <==> records.contains(record) && record_matches(
            record,
            filter,
        ),
{
    let pred = |record: NameRecord| record_matches(record, filter);
    if filtered(records, filter).contains(record) {
        let k = choose|k: int|
            0 <= k < filtered(records, filter).len() && filtered(records, filter)[k] == record;
        records.lemma_filter_pred(pred, k);
        records.lemma_filter_contains_rev(pred, record);
    }
    if records.contains(record) && record_matches(record, filter) {
        let k = choose|k: int| 0 <= k < records.len() && records[k] == record;
        records.lemma_filter_contains(pred, k);
    }
}

/// A filter reorders nothing: of two records that it lets through, the one
/// that comes first in the result also comes first in the collection.
pub proof fn lemma_filter_keeps_order(
    records: Seq<NameRecord>,
    filter: FilterSpec,
    i: int,
    j: int,
)
    requires
        0 <= i < j < filtered(records, filter).len(),
    ensures
        exists|a: int, b: int|
            #![trigger records[a], records[b]]
            0 <= a < b < records.len() && records[a] == filtered(records, filter)[i] && records[b]
                == filtered(records, filter)[j],
    decreases records.len(),
{
    let pred = |record: NameRecord| record_matches(record, filter);
    let found = filtered(records, filter);
    reveal(Seq::filter);
    let rest = records.drop_last();
    let last = records.last();
    if pred(last) && j == found.len() - 1 {
        let earlier = filtered(rest, filter);
        assert(earlier.contains(earlier[i]));
        lemma_filtered_members(rest, filter, earlier[i]);
        let a = choose|a: int| 0 <= a < rest.len() && rest[a] == earlier[i];
        let b = records.len() - 1;
        assert(records[a] == found[i] && records[b] == found[j]);
    } else {
        lemma_filter_keeps_order(rest, filter, i, j);
        let (a, b) = choose|a: int, b: int|
            #![trigger rest[a], rest[b]]
            0 <= a < b < rest.len() && rest[a] == filtered(rest, filter)[i] && rest[b] == filtered(
                rest,
                filter,
            )[j];
        assert(records[a] == found[i] && records[b] == found[j]);
    }
}

/// Where no record meets the filter, the result is empty.
pub proof fn lemma_filter_nothing_found(records: Seq<NameRecord>, filter: FilterSpec)
    requires
        forall|i: int| 0 <= i < records.len() ==> !record_matches(#[trigger] records[i], filter),
    ensures
        filtered(records, filter) == Seq::<NameRecord>::empty(),
{
    let found = filtered(records, filter);
    if found.len() > 0 {
        assert(found.contains(found[0]));
        lemma_filtered_members(records, filter, found[0]);
    }
    assert(found =~= Seq::<NameRecord>::empty());
}

/// A filter lets through no record without a name, where the collection
/// holds none.
pub proof fn lemma_filter_keeps_names(records: Seq<NameRecord>, filter: FilterSpec)
    requires
        all_named(records),
    ensures
        all_named(filtered(records, filter)),
{
    let found = filtered(records, filter);
    assert forall|i: int| 0 <= i < found.len() implies has_name(#[trigger] found[i]) by {
        assert(found.contains(found[i]));
        lemma_filtered_members(records, filter, found[i]);
    }
}

/// Appending one record makes the collection longer by one: the records
/// that were there stay, in their order, and the new one comes last.
pub proof fn lemma_append_one(existing: Seq<NameRecord>, record: NameRecord)
    ensures
        appended(existing, seq![record]).len() == existing.len() + 1,
        appended(existing, seq![record]).take(existing.len() as int) == existing,
        appended(existing, seq![record]).last() == record,
        forall|i: int|
            0 <= i < existing.len() ==> #[trigger] appended(existing, seq![record])[i]
                == existing[i],
{
    assert(appended(existing, seq![record]).take(existing.len() as int) =~= existing);
}

} // verus!
