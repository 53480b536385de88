//! What a store holds, as a sequence of records in the order in which they
//! were first stored, and the questions that can be asked of it.

use crate::store::record::{Record, RecordView};
use crate::store::schema::{RecordKind, SecondaryIndex};
use crate::text::{same_text, starts_with};
use crate::value::ViewEq;
use vstd::prelude::*;

verus! {

/// Whether position `i` of `records` holds the record of `kind` with `key`.
pub open spec fn holds_at(records: Seq<RecordView>, i: int, kind: RecordKind, key: Seq<char>)
    -> bool {
    0 <= i < records.len() && records[i].is_at(kind, key)
}

/// Whether `i` is the first position of `records` that holds the record of
/// `kind` with `key`.
pub open spec fn first_at(records: Seq<RecordView>, i: int, kind: RecordKind, key: Seq<char>)
    -> bool {
    &&& holds_at(records, i, kind, key)
    &&& forall|j: int| 0 <= j < i ==> !holds_at(records, j, kind, key)
}

/// Whether `records` holds a record of `kind` with `key`.
pub open spec fn has_key(records: Seq<RecordView>, kind: RecordKind, key: Seq<char>) -> bool {
    exists|i: int| holds_at(records, i, kind, key)
}

/// No two records of one kind share a key.
pub open spec fn distinct_keys(records: Seq<RecordView>) -> bool {
    forall|i: int, j: int|
        0 <= i < j < records.len() ==> !(#[trigger] records[i]).is_at(
            (#[trigger] records[j]).kind(),
            records[j].key(),
        )
}

/// The first position that holds the record of `kind` with `key`.
pub open spec fn position_of(records: Seq<RecordView>, kind: RecordKind, key: Seq<char>) -> int {
    choose|i: int| first_at(records, i, kind, key)
}

/// The record of `kind` with `key`, if there is one.
pub open spec fn lookup(records: Seq<RecordView>, kind: RecordKind, key: Seq<char>) -> Option<
    RecordView,
> {
    if has_key(records, kind, key) {
        Some(records[position_of(records, kind, key)])
    } else {
        None
    }
}

/// The records of `kind`, in the order in which they are stored.
pub open spec fn of_kind(records: Seq<RecordView>, kind: RecordKind) -> Seq<RecordView> {
    records.filter(|record: RecordView| record.kind() == kind)
}

/// The records whose value under `index` begins with `prefix`, in the order
/// in which they are stored.
pub open spec fn with_prefix(records: Seq<RecordView>, index: SecondaryIndex, prefix: Seq<char>)
    -> Seq<RecordView> {
    records.filter(|record: RecordView| record.matches_prefix(index, prefix))
}

/// A first position is the only first position: whoever finds one has found
/// what `lookup` gives.
pub proof fn lemma_lookup_first(records: Seq<RecordView>, i: int, kind: RecordKind, key: Seq<char>)
    requires
        first_at(records, i, kind, key),
    ensures
        has_key(records, kind, key),
        position_of(records, kind, key) == i,
        lookup(records, kind, key) == Some(records[i]),
{
    let chosen = position_of(records, kind, key);
    assert(first_at(records, chosen, kind, key));
    if chosen < i {
        assert(holds_at(records, chosen, kind, key));
    }
    if i < chosen {
        assert(holds_at(records, i, kind, key));
    }
}

/// Where keys are distinct, the one position that holds a key is the first.
pub proof fn lemma_distinct_first(
    records: Seq<RecordView>,
    i: int,
    kind: RecordKind,
    key: Seq<char>,
)
    requires
        distinct_keys(records),
        holds_at(records, i, kind, key),
    ensures
        first_at(records, i, kind, key),
        lookup(records, kind, key) == Some(records[i]),
{
    assert forall|j: int| 0 <= j < i implies !holds_at(records, j, kind, key) by {
        if holds_at(records, j, kind, key) {
            assert(records[j].is_at(records[i].kind(), records[i].key()));
        }
    }
    lemma_lookup_first(records, i, kind, key);
}

/// Appending a record under a key that was free keeps keys distinct, makes
/// the record the one found under its key, and leaves every other key as it
/// was.
pub proof fn lemma_push_fresh(records: Seq<RecordView>, record: RecordView)
    requires
        distinct_keys(records),
        !has_key(records, record.kind(), record.key()),
    ensures
        distinct_keys(records.push(record)),
        lookup(records.push(record), record.kind(), record.key()) == Some(record),
        forall|kind: RecordKind, key: Seq<char>|
            !record.is_at(kind, key) ==> #[trigger] lookup(records.push(record), kind, key)
                == lookup(records, kind, key),
{
    let after = records.push(record);
    assert forall|i: int, j: int| 0 <= i < j < after.len() implies !(#[trigger] after[i]).is_at(
        (#[trigger] after[j]).kind(),
        after[j].key(),
    ) by {
        if j == records.len() {
            assert(!holds_at(records, i, record.kind(), record.key()));
        } else {
            assert(!records[i].is_at(records[j].kind(), records[j].key()));
        }
    }
    assert forall|j: int| 0 <= j < records.len() implies !holds_at(
        after,
        j,
        record.kind(),
        record.key(),
    ) by {
        assert(!holds_at(records, j, record.kind(), record.key()));
    }
    lemma_lookup_first(after, records.len() as int, record.kind(), record.key());
    assert forall|kind: RecordKind, key: Seq<char>| !record.is_at(kind, key) implies #[trigger] lookup(
        after,
        kind,
        key,
    ) == lookup(records, kind, key) by {
        lemma_same_elsewhere(records, after, kind, key);
    }
}

/// Two sequences that hold a key at the same positions, with the same
/// record, give the same answer for it.
pub proof fn lemma_same_elsewhere(
    before: Seq<RecordView>,
    after: Seq<RecordView>,
    kind: RecordKind,
    key: Seq<char>,
)
    requires
        forall|i: int|
            holds_at(before, i, kind, key) <==> holds_at(after, i, kind, key),
        forall|i: int| holds_at(before, i, kind, key) ==> before[i] == after[i],
    ensures
        has_key(before, kind, key) == has_key(after, kind, key),
        lookup(before, kind, key) == lookup(after, kind, key),
{
    if has_key(before, kind, key) {
        let i = choose|i: int| holds_at(before, i, kind, key);
        assert(holds_at(after, i, kind, key));
    }
    if has_key(after, kind, key) {
        let i = choose|i: int| holds_at(after, i, kind, key);
        assert(holds_at(before, i, kind, key));
        let first = lemma_first_exists(before, i, kind, key);
        assert(first_at(after, first, kind, key)) by {
            assert(holds_at(after, first, kind, key));
            assert forall|j: int| 0 <= j < first implies !holds_at(after, j, kind, key) by {
                assert(!holds_at(before, j, kind, key));
            }
        }
        lemma_lookup_first(before, first, kind, key);
        lemma_lookup_first(after, first, kind, key);
    }
}

/// Where some position holds a key, some position is the first to hold it.
pub proof fn lemma_first_exists(
    records: Seq<RecordView>,
    i: int,
    kind: RecordKind,
    key: Seq<char>,
) -> (first: int)
    requires
        holds_at(records, i, kind, key),
    ensures
        first_at(records, first, kind, key),
        first <= i,
    decreases i,
{
    if exists|j: int| 0 <= j < i && holds_at(records, j, kind, key) {
        let j = choose|j: int| 0 <= j < i && holds_at(records, j, kind, key);
        lemma_first_exists(records, j, kind, key)
    } else {
        i
    }
}

/// Replacing a record by one of the same kind and key keeps keys distinct,
/// makes the new record the one found under the key, and leaves every other
/// key as it was.
pub proof fn lemma_replace(records: Seq<RecordView>, i: int, record: RecordView)
    requires
        distinct_keys(records),
        holds_at(records, i, record.kind(), record.key()),
    ensures
        distinct_keys(records.update(i, record)),
        lookup(records.update(i, record), record.kind(), record.key()) == Some(record),
        forall|kind: RecordKind, key: Seq<char>|
            !record.is_at(kind, key) ==> #[trigger] lookup(records.update(i, record), kind, key)
                == lookup(records, kind, key),
{
    let after = records.update(i, record);
    assert forall|a: int, b: int| 0 <= a < b < after.len() implies !(#[trigger] after[a]).is_at(
        (#[trigger] after[b]).kind(),
        after[b].key(),
    ) by {
        assert(!records[a].is_at(records[b].kind(), records[b].key()));
    }
    assert(holds_at(after, i, record.kind(), record.key()));
    lemma_distinct_first(after, i, record.kind(), record.key());
    assert forall|kind: RecordKind, key: Seq<char>| !record.is_at(kind, key) implies #[trigger] lookup(
        after,
        kind,
        key,
    ) == lookup(records, kind, key) by {
        lemma_same_elsewhere(records, after, kind, key);
    }
}

/// Taking a record out keeps keys distinct, leaves nothing under its key,
/// and leaves every other key as it was.
pub proof fn lemma_remove(records: Seq<RecordView>, i: int)
    requires
        distinct_keys(records),
        0 <= i < records.len(),
    ensures
        distinct_keys(records.remove(i)),
        !has_key(records.remove(i), records[i].kind(), records[i].key()),
        lookup(records.remove(i), records[i].kind(), records[i].key()) is None,
        forall|kind: RecordKind, key: Seq<char>|
            !records[i].is_at(kind, key) ==> #[trigger] lookup(records.remove(i), kind, key)
                == lookup(records, kind, key),
{
    let after = records.remove(i);
    let gone = records[i];
    assert forall|a: int, b: int| 0 <= a < b < after.len() implies !(#[trigger] after[a]).is_at(
        (#[trigger] after[b]).kind(),
        after[b].key(),
    ) by {
        let a0 = if a < i { a } else { a + 1 };
        let b0 = if b < i { b } else { b + 1 };
        assert(!records[a0].is_at(records[b0].kind(), records[b0].key()));
    }
    assert forall|j: int| !holds_at(after, j, gone.kind(), gone.key()) by {
        if holds_at(after, j, gone.kind(), gone.key()) {
            let j0 = if j < i { j } else { j + 1 };
            if j0 < i {
                assert(records[j0].is_at(records[i].kind(), records[i].key()));
            } else {
                assert(records[i].is_at(records[j0].kind(), records[j0].key()));
            }
        }
    }
    assert forall|kind: RecordKind, key: Seq<char>| !gone.is_at(kind, key) implies #[trigger] lookup(
        after,
        kind,
        key,
    ) == lookup(records, kind, key) by {
        if has_key(records, kind, key) {
            let j = choose|j: int| holds_at(records, j, kind, key);
            let j1 = if j < i { j } else { j - 1 };
            assert(holds_at(after, j1, kind, key));
            lemma_distinct_first(records, j, kind, key);
            lemma_distinct_first(after, j1, kind, key);
        } else {
            if has_key(after, kind, key) {
                let j = choose|j: int| holds_at(after, j, kind, key);
                let j0 = if j < i { j } else { j + 1 };
                assert(holds_at(records, j0, kind, key));
            }
        }
    }
}

/// What is found under a key is of that kind and has that key.
pub proof fn lemma_lookup_is_at(records: Seq<RecordView>, kind: RecordKind, key: Seq<char>)
    ensures
        lookup(records, kind, key) matches Some(record) ==> record.is_at(kind, key)
            && records.contains(record),
        lookup(records, kind, key) is Some <==> has_key(records, kind, key),
{
    if has_key(records, kind, key) {
        let i = choose|i: int| holds_at(records, i, kind, key);
        let first = lemma_first_exists(records, i, kind, key);
        lemma_lookup_first(records, first, kind, key);
    }
}

/// Finds the first position that holds the record of `kind` with `key`.
pub fn find(records: &Vec<Record>, kind: RecordKind, key: &str) -> (found: Option<usize>)
    ensures
        found is Some == has_key(records.deep_view(), kind, key@),
        found matches Some(i) ==> first_at(records.deep_view(), i as int, kind, key@),
        found matches Some(i) ==> lookup(records.deep_view(), kind, key@) == Some(
            records@[i as int]@,
        ),
        found is None ==> lookup(records.deep_view(), kind, key@) is None,
{
    let ghost all = records.deep_view();
    let mut i: usize = 0;
    while i < records.len()
        invariant
            i <= records@.len(),
            all == records.deep_view(),
            forall|j: int| 0 <= j < i ==> !holds_at(all, j, kind, key@),
        decreases records@.len() - i,
    {
        if records[i].kind() == kind && same_text(records[i].key(), key) {
            proof {
                assert(holds_at(all, i as int, kind, key@));
                lemma_lookup_first(all, i as int, kind, key@);
            }
            return Some(i);
        }
        i = i + 1;
    }
    None
}

/// Copies the records of `kind`, in the order in which they are stored.
pub fn collect_kind(records: &Vec<Record>, kind: RecordKind) -> (found: Vec<Record>)
    ensures
        found.deep_view() == of_kind(records.deep_view(), kind),
{
    let ghost all = records.deep_view();
    let mut out: Vec<Record> = Vec::new();
    let mut i: usize = 0;
    proof {
        reveal(Seq::filter);
        assert(out.deep_view() =~= of_kind(all.take(0), kind));
    }
    while i < records.len()
        invariant
            i <= records@.len(),
            all == records.deep_view(),
            out.deep_view() == of_kind(all.take(i as int), kind),
        decreases records@.len() - i,
    {
        proof {
            reveal(Seq::filter);
            assert(all.take(i + 1).drop_last() =~= all.take(i as int));
            assert(all.take(i + 1).last() == records@[i as int]@);
        }
        if records[i].kind() == kind {
            let ghost before = out.deep_view();
            out.push(records[i].duplicate());
            assert(out.deep_view() =~= before.push(records@[i as int]@));
        }
        i = i + 1;
    }
    proof {
        assert(all.take(i as int) =~= all);
    }
    out
}

/// Copies the records whose value under `index` begins with `prefix`, in the
/// order in which they are stored.
pub fn collect_prefix(records: &Vec<Record>, index: SecondaryIndex, prefix: &str) -> (found: Vec<
    Record,
>)
    ensures
        found.deep_view() == with_prefix(records.deep_view(), index, prefix@),
{
    let ghost all = records.deep_view();
    let mut out: Vec<Record> = Vec::new();
    let mut i: usize = 0;
    proof {
        reveal(Seq::filter);
        assert(out.deep_view() =~= with_prefix(all.take(0), index, prefix@));
    }
    while i < records.len()
        invariant
            i <= records@.len(),
            all == records.deep_view(),
            out.deep_view() == with_prefix(all.take(i as int), index, prefix@),
        decreases records@.len() - i,
    {
        proof {
            reveal(Seq::filter);
            assert(all.take(i + 1).drop_last() =~= all.take(i as int));
            assert(all.take(i + 1).last() == records@[i as int]@);
        }
        let matched: bool = match records[i].secondary_key(index) {
            Some(value) => starts_with(value, prefix),
            None => false,
        };
        if matched {
            let ghost before = out.deep_view();
            out.push(records[i].duplicate());
            assert(out.deep_view() =~= before.push(records@[i as int]@));
        }
        i = i + 1;
    }
    proof {
        assert(all.take(i as int) =~= all);
    }
    out
}

} // verus!
