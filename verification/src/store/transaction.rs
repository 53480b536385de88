//! The store and its transactions.
//!
//! A read transaction sees the store as it was when the transaction began,
//! and the borrow it holds keeps the store from changing under it. A write
//! transaction works on a copy: nothing it does reaches the store before it
//! is committed, and a transaction that is dropped leaves no trace. A commit
//! puts the whole copy in place at once, and only if the store still is what
//! the transaction started from, so two transactions that were begun side by
//! side cannot both take effect.

use crate::store::contents::{
    collect_kind, collect_prefix, distinct_keys, find, has_key, holds_at, lemma_distinct_first,
    lemma_push_fresh, lemma_remove, lemma_replace, lookup, of_kind, position_of, with_prefix,
};
use crate::store::error::{StoreError, StoreErrorView};
use crate::store::record::{Record, RecordView};
use crate::store::schema::{RecordKind, SchemaRegistry, SecondaryIndex};
use crate::text::same_text;
use crate::value::{duplicate_all, option_view, same_all, ViewEq};
use vstd::prelude::*;

verus! {

/// Every record is of a kind that the registry defines.
pub open spec fn all_defined(registry: SchemaRegistry, records: Seq<RecordView>) -> bool {
    forall|i: int| 0 <= i < records.len() ==> registry.spec_defines((#[trigger] records[i]).kind())
}

/// Why a record cannot be added, if it cannot: its kind is not defined, or
/// its key is taken.
pub open spec fn insert_refusal(
    registry: SchemaRegistry,
    records: Seq<RecordView>,
    record: RecordView,
) -> Option<StoreErrorView> {
    if !registry.spec_defines(record.kind()) {
        Some(StoreErrorView::UndefinedModel { kind: record.kind() })
    } else if has_key(records, record.kind(), record.key()) {
        Some(StoreErrorView::DuplicateKey { kind: record.kind(), key: record.key() })
    } else {
        None
    }
}

/// Why a record cannot be replaced, if it cannot: its kind is not defined,
/// the new record is of another kind or under another key, no record is
/// stored under the key, or the one stored is not the one the caller holds.
pub open spec fn update_refusal(
    registry: SchemaRegistry,
    records: Seq<RecordView>,
    current: RecordView,
    replacement: RecordView,
) -> Option<StoreErrorView> {
    if !registry.spec_defines(current.kind()) {
        Some(StoreErrorView::UndefinedModel { kind: current.kind() })
    } else if !replacement.is_at(current.kind(), current.key()) {
        Some(StoreErrorView::KeyChanged { kind: current.kind(), key: current.key() })
    } else {
        match lookup(records, current.kind(), current.key()) {
            None => Some(StoreErrorView::KeyNotFound { kind: current.kind(), key: current.key() }),
            Some(stored) => if stored != current {
                Some(StoreErrorView::StaleValue { kind: current.kind(), key: current.key() })
            } else {
                None
            },
        }
    }
}

/// The records after `record` was put under its key: in the place of the
/// record that was there, or at the end where there was none.
pub open spec fn upserted(records: Seq<RecordView>, record: RecordView) -> Seq<RecordView> {
    if has_key(records, record.kind(), record.key()) {
        records.update(position_of(records, record.kind(), record.key()), record)
    } else {
        records.push(record)
    }
}

/// The kind of record that a secondary index belongs to.
pub open spec fn indexed_kind(index: SecondaryIndex) -> RecordKind {
    match index {
        SecondaryIndex::CardDeck => RecordKind::Card,
    }
}

/// After a record was put under its key, it is the one found there, whatever
/// was there before, and every other key is as it was.
pub proof fn lemma_upsert_wins(records: Seq<RecordView>, record: RecordView)
    requires
        distinct_keys(records),
    ensures
        distinct_keys(upserted(records, record)),
        lookup(upserted(records, record), record.kind(), record.key()) == Some(record),
        forall|kind: RecordKind, key: Seq<char>|
            !record.is_at(kind, key) ==> #[trigger] lookup(upserted(records, record), kind, key)
                == lookup(records, kind, key),
{
    if has_key(records, record.kind(), record.key()) {
        let i = choose|i: int| holds_at(records, i, record.kind(), record.key());
        lemma_distinct_first(records, i, record.kind(), record.key());
        lemma_replace(records, i, record);
    } else {
        lemma_push_fresh(records, record);
    }
}

/// A record that was written is read back under its key just as it was
/// written, whichever of the three ways it was written in: added under a free
/// key, put under its key, or put in the place of the record that was there.
/// This holds of records of every kind.
pub proof fn lemma_written_is_read_back(records: Seq<RecordView>, record: RecordView)
    requires
        distinct_keys(records),
    ensures
        !has_key(records, record.kind(), record.key()) ==> lookup(
            records.push(record),
            record.kind(),
            record.key(),
        ) == Some(record),
        lookup(upserted(records, record), record.kind(), record.key()) == Some(record),
        has_key(records, record.kind(), record.key()) ==> lookup(
            records.update(position_of(records, record.kind(), record.key()), record),
            record.kind(),
            record.key(),
        ) == Some(record),
{
    lemma_upsert_wins(records, record);
    if !has_key(records, record.kind(), record.key()) {
        lemma_push_fresh(records, record);
    }
}

/// Of two records put under one key one after the other, the second is the
/// one that is found there afterwards.
pub proof fn lemma_last_write_wins(records: Seq<RecordView>, first: RecordView, second: RecordView)
    requires
        distinct_keys(records),
        second.is_at(first.kind(), first.key()),
    ensures
        lookup(upserted(upserted(records, first), second), first.kind(), first.key()) == Some(
            second,
        ),
{
    lemma_upsert_wins(records, first);
    lemma_upsert_wins(upserted(records, first), second);
}

/// Reads the record of `kind` with `key` from a vector of records.
fn read_primary(registry: SchemaRegistry, records: &Vec<Record>, kind: RecordKind, key: &str) -> (r:
    Result<Option<Record>, StoreError>)
    ensures
        r is Ok <==> registry.spec_defines(kind),
        r matches Ok(found) ==> option_view(found) == lookup(records.deep_view(), kind, key@),
        r matches Ok(Some(record)) ==> record@.is_at(kind, key@),
        r matches Err(e) ==> e@ == (StoreErrorView::UndefinedModel { kind }),
{
    if !registry.defines(kind) {
        return Err(StoreError::UndefinedModel { kind });
    }
    match find(records, kind, key) {
        Some(i) => Ok(Some(records[i].duplicate())),
        None => Ok(None),
    }
}

/// Reads the records of `kind` from a vector of records.
fn read_kind(registry: SchemaRegistry, records: &Vec<Record>, kind: RecordKind) -> (r: Result<
    Vec<Record>,
    StoreError,
>)
    ensures
        r is Ok <==> registry.spec_defines(kind),
        r matches Ok(found) ==> found.deep_view() == of_kind(records.deep_view(), kind),
        r matches Err(e) ==> e@ == (StoreErrorView::UndefinedModel { kind }),
{
    if !registry.defines(kind) {
        return Err(StoreError::UndefinedModel { kind });
    }
    Ok(collect_kind(records, kind))
}

/// Reads the records whose value under `index` begins with `prefix`.
fn read_prefix(
    registry: SchemaRegistry,
    records: &Vec<Record>,
    index: SecondaryIndex,
    prefix: &str,
) -> (r: Result<Vec<Record>, StoreError>)
    ensures
        r is Ok <==> registry.spec_defines(indexed_kind(index)),
        r matches Ok(found) ==> found.deep_view() == with_prefix(
            records.deep_view(),
            index,
            prefix@,
        ),
        r matches Err(e) ==> e@ == (StoreErrorView::UndefinedModel { kind: indexed_kind(index) }),
{
    let kind = match index {
        SecondaryIndex::CardDeck => RecordKind::Card,
    };
    if !registry.defines(kind) {
        return Err(StoreError::UndefinedModel { kind });
    }
    Ok(collect_prefix(records, index, prefix))
}

/// A store of records, held in memory.
pub struct Store {
    registry: SchemaRegistry,
    records: Vec<Record>,
}

/// A view of a store that does not change while it is held.
pub struct ReadTransaction<'a> {
    store: &'a Store,
}

/// A set of changes that reach the store together, when the transaction is
/// committed, or not at all.
pub struct WriteTransaction {
    registry: SchemaRegistry,
    base: Vec<Record>,
    working: Vec<Record>,
}

impl View for Store {
    type V = Seq<RecordView>;

    /// The records of the store, in the order in which they were first
    /// stored.
    closed spec fn view(&self) -> Seq<RecordView> {
        self.records.deep_view()
    }
}

impl Store {
    #[verifier::type_invariant]
    spec fn well_formed(self) -> bool {
        &&& distinct_keys(self.records.deep_view())
        &&& all_defined(self.registry, self.records.deep_view())
    }

    /// The kinds of record that the store knows.
    pub closed spec fn registry(&self) -> SchemaRegistry {
        self.registry
    }

    /// Opens an empty store that knows the kinds of `registry`.
    pub fn open(registry: SchemaRegistry) -> (store: Store)
        ensures
            store@ == Seq::<RecordView>::empty(),
            store.registry() == registry,
    {
        let store = Store { registry, records: Vec::new() };
        assert(store.records.deep_view() =~= Seq::<RecordView>::empty());
        store
    }

    /// How many records the store holds.
    pub fn len(&self) -> (n: usize)
        ensures
            n == self@.len(),
    {
        self.records.len()
    }

    /// Begins a read transaction. It sees the store as it is now.
    pub fn begin_read(&self) -> (txn: ReadTransaction<'_>)
        ensures
            txn@ == self@,
            txn.registry() == self.registry(),
            distinct_keys(txn@),
            all_defined(txn.registry(), txn@),
    {
        proof {
            use_type_invariant(self);
        }
        ReadTransaction { store: self }
    }

    /// Begins a write transaction. It starts from the store as it is now and
    /// changes nothing until it is committed.
    pub fn begin_write(&self) -> (txn: WriteTransaction)
        ensures
            txn@ == self@,
            txn.base() == self@,
            txn.registry() == self.registry(),
            distinct_keys(txn@),
            all_defined(txn.registry(), txn@),
    {
        proof {
            use_type_invariant(self);
        }
        WriteTransaction {
            registry: self.registry,
            base: duplicate_all(&self.records),
            working: duplicate_all(&self.records),
        }
    }

    /// Commits a write transaction: the store becomes what the transaction
    /// made of it, all at once. The commit is refused, and the store left as
    /// it is, where the store is no longer what the transaction started
    /// from: another transaction was committed in between.
    pub fn commit(&mut self, txn: WriteTransaction) -> (r: Result<(), StoreError>)
        ensures
            r is Ok <==> (old(self)@ == txn.base() && old(self).registry() == txn.registry()),
            r is Ok ==> final(self)@ == txn@,
            r matches Err(e) ==> final(self)@ == old(self)@ && e@ == StoreErrorView::Conflict,
            final(self).registry() == old(self).registry(),
            distinct_keys(final(self)@),
            all_defined(final(self).registry(), final(self)@),
    {
        proof {
            use_type_invariant(&*self);
            use_type_invariant(&txn);
        }
        if !(self.registry == txn.registry) || !same_all(&self.records, &txn.base) {
            return Err(StoreError::Conflict);
        }
        self.records = txn.working;
        Ok(())
    }
}

impl<'a> View for ReadTransaction<'a> {
    type V = Seq<RecordView>;

    /// The records that the transaction sees.
    closed spec fn view(&self) -> Seq<RecordView> {
        self.store@
    }
}

impl<'a> ReadTransaction<'a> {
    /// The kinds of record that the transaction can read.
    pub closed spec fn registry(&self) -> SchemaRegistry {
        self.store.registry()
    }

    /// The record of `kind` with `key`, if there is one.
    pub fn get_primary(&self, kind: RecordKind, key: &str) -> (r: Result<Option<Record>, StoreError>)
        ensures
            r is Ok <==> self.registry().spec_defines(kind),
            r matches Ok(found) ==> option_view(found) == lookup(self@, kind, key@),
            r matches Ok(Some(record)) ==> record@.is_at(kind, key@),
            r matches Err(e) ==> e@ == (StoreErrorView::UndefinedModel { kind }),
    {
        read_primary(self.store.registry, &self.store.records, kind, key)
    }

    /// The records of `kind`, in the order in which they were first stored.
    pub fn scan_primary(&self, kind: RecordKind) -> (r: Result<Vec<Record>, StoreError>)
        ensures
            r is Ok <==> self.registry().spec_defines(kind),
            r matches Ok(found) ==> found.deep_view() == of_kind(self@, kind),
            r matches Err(e) ==> e@ == (StoreErrorView::UndefinedModel { kind }),
    {
        read_kind(self.store.registry, &self.store.records, kind)
    }

    /// The records whose value under `index` is `prefix` or begins with it,
    /// in the order in which they were first stored.
    pub fn scan_secondary(&self, index: SecondaryIndex, prefix: &str) -> (r: Result<
        Vec<Record>,
        StoreError,
    >)
        ensures
            r is Ok <==> self.registry().spec_defines(indexed_kind(index)),
            r matches Ok(found) ==> found.deep_view() == with_prefix(self@, index, prefix@),
            r matches Err(e) ==> e@ == (StoreErrorView::UndefinedModel {
                kind: indexed_kind(index),
            }),
    {
        read_prefix(self.store.registry, &self.store.records, index, prefix)
    }
}

impl View for WriteTransaction {
    type V = Seq<RecordView>;

    /// The records as the transaction has them now.
    closed spec fn view(&self) -> Seq<RecordView> {
        self.working.deep_view()
    }
}

impl WriteTransaction {
    #[verifier::type_invariant]
    spec fn well_formed(self) -> bool {
        &&& distinct_keys(self.working.deep_view())
        &&& all_defined(self.registry, self.working.deep_view())
    }

    /// The records of the store when the transaction began.
    pub closed spec fn base(&self) -> Seq<RecordView> {
        self.base.deep_view()
    }

    /// The kinds of record that the transaction can hold.
    pub closed spec fn registry(&self) -> SchemaRegistry {
        self.registry
    }

    /// Adds a record under a key that is free. A record whose key is taken
    /// is refused and the transaction stays as it was.
    pub fn insert(&mut self, record: Record) -> (r: Result<(), StoreError>)
        ensures
            r is Ok <==> insert_refusal(old(self).registry(), old(self)@, record@) is None,
            r is Ok ==> final(self)@ == old(self)@.push(record@),
            r matches Err(e) ==> final(self)@ == old(self)@ && Some(e@) == insert_refusal(
                old(self).registry(),
                old(self)@,
                record@,
            ),
            final(self).base() == old(self).base(),
            final(self).registry() == old(self).registry(),
            distinct_keys(final(self)@),
    {
        proof {
            use_type_invariant(&*self);
        }
        let kind = record.kind();
        if !self.registry.defines(kind) {
            return Err(StoreError::UndefinedModel { kind });
        }
        if find(&self.working, kind, record.key()).is_some() {
            return Err(StoreError::DuplicateKey { kind, key: record.key().to_string() });
        }
        let ghost before = self.working.deep_view();
        let mut records: Vec<Record> = Vec::new();
        std::mem::swap(&mut records, &mut self.working);
        proof {
            lemma_push_fresh(before, record@);
        }
        records.push(record);
        assert(records.deep_view() =~= before.push(record@));
        self.working = records;
        Ok(())
    }

    /// Replaces the record `current` by `replacement`. The caller hands in
    /// the record as it read it: where the one stored is no longer the same,
    /// the replacement is refused, so that no change made in between is
    /// lost. The replacement keeps the kind and the key.
    pub fn update(&mut self, current: Record, replacement: Record) -> (r: Result<(), StoreError>)
        ensures
            r is Ok <==> update_refusal(old(self).registry(), old(self)@, current@, replacement@)
                is None,
            r is Ok ==> final(self)@ == old(self)@.update(
                position_of(old(self)@, current@.kind(), current@.key()),
                replacement@,
            ),
            r matches Err(e) ==> final(self)@ == old(self)@ && Some(e@) == update_refusal(
                old(self).registry(),
                old(self)@,
                current@,
                replacement@,
            ),
            final(self).base() == old(self).base(),
            final(self).registry() == old(self).registry(),
            distinct_keys(final(self)@),
    {
        proof {
            use_type_invariant(&*self);
        }
        let kind = current.kind();
        if !self.registry.defines(kind) {
            return Err(StoreError::UndefinedModel { kind });
        }
        if !(replacement.kind() == kind) || !same_text(replacement.key(), current.key()) {
            return Err(StoreError::KeyChanged { kind, key: current.key().to_string() });
        }
        let at: usize = match find(&self.working, kind, current.key()) {
            Some(i) => i,
            None => {
                return Err(StoreError::KeyNotFound { kind, key: current.key().to_string() });
            },
        };
        if !self.working[at].same(&current) {
            return Err(StoreError::StaleValue { kind, key: current.key().to_string() });
        }
        let ghost before = self.working.deep_view();
        let mut records: Vec<Record> = Vec::new();
        std::mem::swap(&mut records, &mut self.working);
        proof {
            lemma_replace(before, at as int, replacement@);
        }
        records.set(at, replacement);
        assert(records.deep_view() =~= before.update(at as int, replacement@));
        self.working = records;
        Ok(())
    }

    /// Puts a record under its key, in the place of the one that is there or
    /// as a new one.
    pub fn upsert(&mut self, record: Record) -> (r: Result<(), StoreError>)
        ensures
            r is Ok <==> old(self).registry().spec_defines(record@.kind()),
            r is Ok ==> final(self)@ == upserted(old(self)@, record@),
            r matches Err(e) ==> final(self)@ == old(self)@ && e@ == (
            StoreErrorView::UndefinedModel { kind: record@.kind() }),
            final(self).base() == old(self).base(),
            final(self).registry() == old(self).registry(),
            distinct_keys(final(self)@),
    {
        proof {
            use_type_invariant(&*self);
        }
        let kind = record.kind();
        if !self.registry.defines(kind) {
            return Err(StoreError::UndefinedModel { kind });
        }
        let place = find(&self.working, kind, record.key());
        let ghost before = self.working.deep_view();
        let mut records: Vec<Record> = Vec::new();
        std::mem::swap(&mut records, &mut self.working);
        match place {
            Some(at) => {
                proof {
                    lemma_replace(before, at as int, record@);
                }
                records.set(at, record);
                assert(records.deep_view() =~= before.update(at as int, record@));
            },
            None => {
                proof {
                    lemma_push_fresh(before, record@);
                }
                records.push(record);
                assert(records.deep_view() =~= before.push(record@));
            },
        }
        self.working = records;
        Ok(())
    }

    /// Takes out the record of `kind` with `key` and hands it back. Where
    /// there is none the transaction stays as it was.
    pub fn remove(&mut self, kind: RecordKind, key: &str) -> (r: Result<Record, StoreError>)
        ensures
            r is Ok <==> (old(self).registry().spec_defines(kind) && has_key(
                old(self)@,
                kind,
                key@,
            )),
            r matches Ok(removed) ==> Some(removed@) == lookup(old(self)@, kind, key@)
                && final(self)@ == old(self)@.remove(position_of(old(self)@, kind, key@))
                && lookup(final(self)@, kind, key@) is None,
            r matches Err(e) ==> final(self)@ == old(self)@ && e@ == (if !old(
                self,
            ).registry().spec_defines(kind) {
                StoreErrorView::UndefinedModel { kind }
            } else {
                StoreErrorView::KeyNotFound { kind, key: key@ }
            }),
            final(self).base() == old(self).base(),
            final(self).registry() == old(self).registry(),
            distinct_keys(final(self)@),
    {
        proof {
            use_type_invariant(&*self);
        }
        if !self.registry.defines(kind) {
            return Err(StoreError::UndefinedModel { kind });
        }
        let at: usize = match find(&self.working, kind, key) {
            Some(i) => i,
            None => {
                return Err(StoreError::KeyNotFound { kind, key: key.to_string() });
            },
        };
        let ghost before = self.working.deep_view();
        let mut records: Vec<Record> = Vec::new();
        std::mem::swap(&mut records, &mut self.working);
        proof {
            lemma_remove(before, at as int);
        }
        let removed = records.remove(at);
        assert(records.deep_view() =~= before.remove(at as int));
        self.working = records;
        Ok(removed)
    }

    /// The record of `kind` with `key` as the transaction has it now.
    pub fn get_primary(&self, kind: RecordKind, key: &str) -> (r: Result<Option<Record>, StoreError>)
        ensures
            r is Ok <==> self.registry().spec_defines(kind),
            r matches Ok(found) ==> option_view(found) == lookup(self@, kind, key@),
            r matches Ok(Some(record)) ==> record@.is_at(kind, key@),
            r matches Err(e) ==> e@ == (StoreErrorView::UndefinedModel { kind }),
    {
        read_primary(self.registry, &self.working, kind, key)
    }

    /// The records of `kind` as the transaction has them now.
    pub fn scan_primary(&self, kind: RecordKind) -> (r: Result<Vec<Record>, StoreError>)
        ensures
            r is Ok <==> self.registry().spec_defines(kind),
            r matches Ok(found) ==> found.deep_view() == of_kind(self@, kind),
            r matches Err(e) ==> e@ == (StoreErrorView::UndefinedModel { kind }),
    {
        read_kind(self.registry, &self.working, kind)
    }

    /// The records whose value under `index` is `prefix` or begins with it,
    /// as the transaction has them now.
    pub fn scan_secondary(&self, index: SecondaryIndex, prefix: &str) -> (r: Result<
        Vec<Record>,
        StoreError,
    >)
        ensures
            r is Ok <==> self.registry().spec_defines(indexed_kind(index)),
            r matches Ok(found) ==> found.deep_view() == with_prefix(self@, index, prefix@),
            r matches Err(e) ==> e@ == (StoreErrorView::UndefinedModel {
                kind: indexed_kind(index),
            }),
    {
        read_prefix(self.registry, &self.working, index, prefix)
    }
}

} // verus!
