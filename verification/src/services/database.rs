//! The database service: cards and their reviews, decks and their counts,
//! saved texts, cached answers of the tutor, and settings.
//!
//! Every change runs in one write transaction of the store, so it takes
//! effect as a whole or not at all. Where an operation stamps a record with
//! the time, it comes in two forms: one that is given the time, and one that
//! reads the clock and then does the same.

use crate::models::deck::{
    lemma_summary_counts, CachedResponse, CachedResponseView, Deck, DeckInfo, DeckInfoView,
    DeckView, LearningText, LearningTextView, TextInfo, TextInfoView, UserSetting,
    UserSettingView,
};
use crate::models::flashcard::{CardType, FlashCard, FlashCardView, SRSData, MIN_EASE};
use crate::srs::{next_state, schedule, Quality, ReviewOutcome};
use crate::store::contents::{
    distinct_keys, has_key, holds_at, lemma_distinct_first, lemma_lookup_is_at, lemma_push_fresh,
    lemma_replace, lookup, of_kind, position_of, with_prefix,
};
use crate::store::error::{StoreError, StoreErrorView};
use crate::store::record::{Record, RecordView};
use crate::store::schema::{RecordKind, SchemaRegistry, SecondaryIndex};
use crate::store::transaction::{
    lemma_last_write_wins, lemma_upsert_wins, upserted, ReadTransaction, Store, WriteTransaction,
};
use crate::text::labelled;
use crate::time::{minute_text, Timestamp};
use crate::value::{option_view, ViewEq};
use vstd::prelude::*;
use vstd::string::StringExecFns;

verus! {

/// Why the database service failed.
#[derive(Debug, PartialEq, Eq)]
pub enum DatabaseError {
    /// The store could not be opened or created.
    ConnectionError(String),
    /// An operation was refused: a key was taken, a record was missing, a
    /// transaction could not be committed.
    QueryError(String),
    /// Stored bytes could not be read back as a record.
    SerializationError(String),
}

/// What a [`DatabaseError`] holds.
pub enum DatabaseErrorView {
    ConnectionError(Seq<char>),
    QueryError(Seq<char>),
    SerializationError(Seq<char>),
}

impl DatabaseErrorView {
    /// The error in words.
    pub open spec fn text(self) -> Seq<char> {
        match self {
            DatabaseErrorView::ConnectionError(message) => "Database connection error: "@
                + message,
            DatabaseErrorView::QueryError(message) => "Query error: "@ + message,
            DatabaseErrorView::SerializationError(message) => "Serialization error: "@ + message,
        }
    }

    /// The error that the service gives where the store refused.
    pub open spec fn refused(error: StoreErrorView) -> DatabaseErrorView {
        DatabaseErrorView::QueryError(error.message())
    }

    /// The error that the service gives where no card has the identifier.
    pub open spec fn card_not_found(id: Seq<char>) -> DatabaseErrorView {
        DatabaseErrorView::QueryError("Card not found: "@ + id)
    }
}

impl View for DatabaseError {
    type V = DatabaseErrorView;

    open spec fn view(&self) -> DatabaseErrorView {
        match self {
            DatabaseError::ConnectionError(message) => DatabaseErrorView::ConnectionError(
                message@,
            ),
            DatabaseError::QueryError(message) => DatabaseErrorView::QueryError(message@),
            DatabaseError::SerializationError(message) => DatabaseErrorView::SerializationError(
                message@,
            ),
        }
    }
}

impl DeepView for DatabaseError {
    type V = DatabaseErrorView;

    open spec fn deep_view(&self) -> DatabaseErrorView {
        self@
    }
}

impl ViewEq for DatabaseError {
    fn duplicate(&self) -> (r: Self) {
        match self {
            DatabaseError::ConnectionError(message) => DatabaseError::ConnectionError(
                message.clone(),
            ),
            DatabaseError::QueryError(message) => DatabaseError::QueryError(message.clone()),
            DatabaseError::SerializationError(message) => DatabaseError::SerializationError(
                message.clone(),
            ),
        }
    }

    fn same(&self, other: &Self) -> (b: bool) {
        match (self, other) {
            (DatabaseError::ConnectionError(a), DatabaseError::ConnectionError(b)) => *a == *b,
            (DatabaseError::QueryError(a), DatabaseError::QueryError(b)) => *a == *b,
            (DatabaseError::SerializationError(a), DatabaseError::SerializationError(b)) => *a
                == *b,
            _ => false,
        }
    }
}

impl Clone for DatabaseError {
    fn clone(&self) -> (r: Self)
        ensures
            r@ == self@,
    {
        self.duplicate()
    }
}

impl DatabaseError {
    /// The error in words, as it is shown to the user.
    pub fn to_string(&self) -> (text: String)
        ensures
            text@ == self@.text(),
    {
        match self {
            DatabaseError::ConnectionError(message) => labelled(
                "Database connection error: ",
                message.as_str(),
            ),
            DatabaseError::QueryError(message) => labelled("Query error: ", message.as_str()),
            DatabaseError::SerializationError(message) => labelled(
                "Serialization error: ",
                message.as_str(),
            ),
        }
    }

    /// The error that the service gives where the store refused.
    pub fn refused(error: &StoreError) -> (e: DatabaseError)
        ensures
            e@ == DatabaseErrorView::refused(error@),
    {
        DatabaseError::QueryError(error.message())
    }
}

/// What adding `record` does to a store that holds `before`: where the key
/// is free, the record is appended; where it is taken, nothing changes and
/// the caller is told of the duplicate.
pub open spec fn insert_outcome(
    before: Seq<RecordView>,
    after: Seq<RecordView>,
    r: Result<(), DatabaseError>,
    record: RecordView,
) -> bool {
    if has_key(before, record.kind(), record.key()) {
        &&& after == before
        &&& r matches Err(e)
        &&& e@ == DatabaseErrorView::refused(
            StoreErrorView::DuplicateKey { kind: record.kind(), key: record.key() },
        )
    } else {
        &&& after == before.push(record)
        &&& r is Ok
    }
}

/// What putting `record` under its key does to a store that holds `before`:
/// it always succeeds, and the record stands in the place of the one that was
/// there, or at the end.
pub open spec fn upsert_outcome(
    before: Seq<RecordView>,
    after: Seq<RecordView>,
    r: Result<(), DatabaseError>,
    record: RecordView,
) -> bool {
    &&& after == upserted(before, record)
    &&& r is Ok
}

/// What storing a new review state for the card `id` does: the card keeps
/// its place and everything but its review state and the time it was last
/// touched. Where there is no such card nothing changes and the caller is
/// told so.
pub open spec fn srs_outcome(
    before: Seq<RecordView>,
    after: Seq<RecordView>,
    r: Result<(), DatabaseError>,
    id: Seq<char>,
    srs_data: SRSData,
    now: Timestamp,
) -> bool {
    match lookup(before, RecordKind::Card, id) {
        Some(RecordView::Card(card)) => {
            &&& after == before.update(
                position_of(before, RecordKind::Card, id),
                RecordView::Card(card.with_srs(srs_data, now)),
            )
            &&& r is Ok
        },
        _ => {
            &&& after == before
            &&& r matches Err(e)
            &&& e@ == DatabaseErrorView::card_not_found(id)
        },
    }
}

/// What a review of the card `id` with `quality` at `now` does: the card's
/// review state becomes the one that the schedule gives for it. Where there
/// is no such card nothing changes and the caller is told so.
pub open spec fn review_outcome(
    before: Seq<RecordView>,
    after: Seq<RecordView>,
    r: Result<(), DatabaseError>,
    id: Seq<char>,
    quality: Quality,
    now: Timestamp,
) -> bool {
    match lookup(before, RecordKind::Card, id) {
        Some(RecordView::Card(card)) => srs_outcome(
            before,
            after,
            r,
            id,
            next_state(card.srs_data, quality, now),
            now,
        ),
        _ => {
            &&& after == before
            &&& r matches Err(e)
            &&& e@ == DatabaseErrorView::card_not_found(id)
        },
    }
}

/// The card that a card record holds.
pub open spec fn card_of(record: RecordView) -> FlashCardView {
    record->Card_0
}

/// The cards whose deck identifier is `deck_id` or begins with it, in the
/// order in which they were first stored.
pub open spec fn cards_in_deck(records: Seq<RecordView>, deck_id: Seq<char>) -> Seq<
    FlashCardView,
> {
    with_prefix(records, SecondaryIndex::CardDeck, deck_id).map_values(
        |record: RecordView| card_of(record),
    )
}

/// The summary of the deck that a deck record holds, counted over the cards
/// of `records` at `now`.
pub open spec fn deck_summary(records: Seq<RecordView>, record: RecordView, now: Timestamp)
    -> DeckInfoView {
    DeckInfoView::summary(record->Deck_0, cards_in_deck(records, record->Deck_0.id), now)
}

/// The summaries of all decks at `now`, in the order in which the decks were
/// first stored.
pub open spec fn deck_listing(records: Seq<RecordView>, now: Timestamp) -> Seq<DeckInfoView> {
    of_kind(records, RecordKind::Deck).map_values(
        |record: RecordView| deck_summary(records, record, now),
    )
}

/// The label under which a point in time is listed: the date and time to the
/// minute, or nothing for a point that the calendar does not cover.
pub open spec fn date_label(at: Timestamp) -> Seq<char> {
    match minute_text(at.millis) {
        Some(written) => written,
        None => Seq::<char>::empty(),
    }
}

/// The listing of the text that a text record holds.
pub open spec fn text_summary(record: RecordView) -> TextInfoView {
    TextInfoView::listing(record->Text_0, date_label(record->Text_0.created_at))
}

/// The listings of all saved texts, in the order in which the texts were
/// first stored.
pub open spec fn text_listing(records: Seq<RecordView>) -> Seq<TextInfoView> {
    of_kind(records, RecordKind::Text).map_values(|record: RecordView| text_summary(record))
}

/// The saved text with the identifier `id`, if there is one.
pub open spec fn stored_text(records: Seq<RecordView>, id: Seq<char>) -> Option<LearningTextView> {
    match lookup(records, RecordKind::Text, id) {
        Some(RecordView::Text(text)) => Some(text),
        _ => None,
    }
}

/// The value of the setting `key`, if it is set.
pub open spec fn stored_setting(records: Seq<RecordView>, key: Seq<char>) -> Option<Seq<char>> {
    match lookup(records, RecordKind::Setting, key) {
        Some(RecordView::Setting(setting)) => Some(setting.value),
        _ => None,
    }
}

/// The answer cached under `key`, if there is one.
pub open spec fn cached_answer(records: Seq<RecordView>, key: Seq<char>) -> Option<Seq<char>> {
    match lookup(records, RecordKind::CachedResponse, key) {
        Some(RecordView::CachedResponse(cached)) => Some(cached.response),
        _ => None,
    }
}

/// The card with the identifier `id`, if there is one.
pub open spec fn stored_card(records: Seq<RecordView>, id: Seq<char>) -> Option<FlashCardView> {
    match lookup(records, RecordKind::Card, id) {
        Some(RecordView::Card(card)) => Some(card),
        _ => None,
    }
}

/// Caching an answer under a key and then another under the same key leaves
/// the second as the answer found there.
pub proof fn lemma_last_cached_answer_wins(
    records: Seq<RecordView>,
    key: Seq<char>,
    first: Seq<char>,
    first_at: Timestamp,
    second: Seq<char>,
    second_at: Timestamp,
)
    requires
        distinct_keys(records),
    ensures
        cached_answer(
            upserted(
                upserted(
                    records,
                    RecordView::CachedResponse(
                        CachedResponseView { cache_key: key, response: first, created_at: first_at },
                    ),
                ),
                RecordView::CachedResponse(
                    CachedResponseView { cache_key: key, response: second, created_at: second_at },
                ),
            ),
            key,
        ) == Some(second),
{
    lemma_last_write_wins(
        records,
        RecordView::CachedResponse(
            CachedResponseView { cache_key: key, response: first, created_at: first_at },
        ),
        RecordView::CachedResponse(
            CachedResponseView { cache_key: key, response: second, created_at: second_at },
        ),
    );
}

/// In every listing of decks, each deck has at most as many due cards, and
/// at most as many new cards, as it has cards, and a deck without cards has
/// none of either.
pub proof fn lemma_listing_counts(records: Seq<RecordView>, now: Timestamp, i: int)
    requires
        0 <= i < deck_listing(records, now).len(),
    ensures
        deck_listing(records, now)[i].due_cards <= deck_listing(records, now)[i].total_cards,
        deck_listing(records, now)[i].new_cards <= deck_listing(records, now)[i].total_cards,
        deck_listing(records, now)[i].total_cards == 0 ==> deck_listing(records, now)[i].due_cards
            == 0 && deck_listing(records, now)[i].new_cards == 0,
{
    let record = of_kind(records, RecordKind::Deck)[i];
    lemma_summary_counts(record->Deck_0, cards_in_deck(records, record->Deck_0.id), now);
}

/// A review of a card that is stored gives the card the state that the
/// schedule gives for it, and leaves its identifier, its deck, its contents
/// and its creation time alone. A review of a card that is not stored changes
/// nothing, and the card is still not stored afterwards.
pub proof fn lemma_review_effect(
    before: Seq<RecordView>,
    after: Seq<RecordView>,
    r: Result<(), DatabaseError>,
    id: Seq<char>,
    quality: Quality,
    now: Timestamp,
)
    requires
        distinct_keys(before),
        review_outcome(before, after, r, id, quality, now),
    ensures
        match stored_card(before, id) {
            Some(card) => r is Ok && stored_card(after, id) == Some(
                card.with_srs(next_state(card.srs_data, quality, now), now),
            ),
            None => r is Err && after == before && stored_card(after, id) is None,
        },
        distinct_keys(after),
{
    lemma_lookup_is_at(before, RecordKind::Card, id);
    if has_key(before, RecordKind::Card, id) {
        let card = stored_card(before, id)->0;
        let changed = RecordView::Card(card.with_srs(next_state(card.srs_data, quality, now), now));
        let i = choose|i: int| holds_at(before, i, RecordKind::Card, id);
        lemma_distinct_first(before, i, RecordKind::Card, id);
        lemma_replace(before, i, changed);
    }
}

/// The database service, over a store held in memory.
pub struct DatabaseService {
    store: Store,
}

impl View for DatabaseService {
    type V = Seq<RecordView>;

    /// The records that the service holds, in the order in which they were
    /// first stored.
    closed spec fn view(&self) -> Seq<RecordView> {
        self.store@
    }
}

impl DatabaseService {
    #[verifier::type_invariant]
    spec fn well_formed(self) -> bool {
        forall|kind: RecordKind| self.store.registry().spec_defines(kind)
    }

    /// Starts a service on an empty store in memory.
    pub fn new_in_memory() -> (r: Result<DatabaseService, DatabaseError>)
        ensures
            r matches Ok(service) && service@ == Seq::<RecordView>::empty(),
    {
        Ok(DatabaseService { store: Store::open(SchemaRegistry::standard()) })
    }

    /// Commits a transaction that was begun on the store of this service.
    fn apply(&mut self, txn: WriteTransaction) -> (r: Result<(), StoreError>)
        ensures
            r is Ok <==> (old(self)@ == txn.base() && old(self).store.registry()
                == txn.registry()),
            r is Ok ==> final(self)@ == txn@,
            r is Err ==> final(self)@ == old(self)@,
            distinct_keys(final(self)@),
    {
        proof {
            use_type_invariant(&*self);
        }
        let mut store = Store::open(SchemaRegistry::standard());
        std::mem::swap(&mut store, &mut self.store);
        let r = store.commit(txn);
        self.store = store;
        r
    }

    /// Adds a record in one transaction.
    fn insert_record(&mut self, record: Record) -> (r: Result<(), DatabaseError>)
        ensures
            insert_outcome(old(self)@, final(self)@, r, record@),
            r is Ok ==> lookup(final(self)@, record@.kind(), record@.key()) == Some(record@),
            distinct_keys(final(self)@),
    {
        proof {
            use_type_invariant(&*self);
        }
        let mut txn = self.store.begin_write();
        proof {
            if !has_key(txn@, record@.kind(), record@.key()) {
                lemma_push_fresh(txn@, record@);
            }
        }
        match txn.insert(record) {
            Err(e) => Err(DatabaseError::refused(&e)),
            Ok(()) => match self.apply(txn) {
                Ok(()) => Ok(()),
                Err(e) => Err(DatabaseError::refused(&e)),
            },
        }
    }

    /// Copies out the cards that a scan by deck has found.
    fn cards_of(found: &Vec<Record>) -> (cards: Vec<FlashCard>)
        requires
            forall|i: int| 0 <= i < found@.len() ==> (#[trigger] found@[i])@ is Card,
        ensures
            cards.deep_view() == found.deep_view().map_values(
                |record: RecordView| card_of(record),
            ),
    {
        let mut cards: Vec<FlashCard> = Vec::new();
        let mut i: usize = 0;
        while i < found.len()
            invariant
                i <= found@.len(),
                forall|k: int| 0 <= k < found@.len() ==> (#[trigger] found@[k])@ is Card,
                cards@.len() == i,
                forall|k: int| 0 <= k < i ==> cards@[k]@ == card_of(found@[k]@),
            decreases found@.len() - i,
        {
            match &found[i] {
                Record::Card(card) => {
                    cards.push(card.duplicate());
                },
                _ => {
                    assert(found@[i as int]@ is Card);
                },
            }
            i = i + 1;
        }
        assert(cards.deep_view() =~= found.deep_view().map_values(
            |record: RecordView| card_of(record),
        ));
        cards
    }

    /// The cards among the records of a read transaction whose deck
    /// identifier is `deck_id` or begins with it.
    fn scan_deck(txn: &ReadTransaction<'_>, deck_id: &str) -> (r: Result<Vec<FlashCard>, StoreError>)
        ensures
            r is Ok <==> txn.registry().spec_defines(RecordKind::Card),
            r matches Ok(cards) ==> cards.deep_view() == cards_in_deck(txn@, deck_id@),
    {
        match txn.scan_secondary(SecondaryIndex::CardDeck, deck_id) {
            Ok(found) => {
                proof {
                    assert forall|i: int| 0 <= i < found@.len() implies (#[trigger] found@[i])@
                        is Card by {
                        txn@.lemma_filter_pred(
                            |record: RecordView|
                                record.matches_prefix(SecondaryIndex::CardDeck, deck_id@),
                            i,
                        );
                        assert(found.deep_view()[i] == found@[i]@);
                    }
                }
                let cards = Self::cards_of(&found);
                assert(cards.deep_view() =~= cards_in_deck(txn@, deck_id@));
                Ok(cards)
            },
            Err(e) => Err(e),
        }
    }

    /// The cards of a deck: those whose deck identifier is `deck_id` or
    /// begins with it, in the order in which they were first stored.
    pub fn get_deck_cards(&self, deck_id: &str) -> (r: Result<Vec<FlashCard>, DatabaseError>)
        ensures
            r matches Ok(cards) && cards.deep_view() == cards_in_deck(self@, deck_id@),
    {
        proof {
            use_type_invariant(self);
        }
        let txn = self.store.begin_read();
        match Self::scan_deck(&txn, deck_id) {
            Ok(cards) => Ok(cards),
            Err(e) => Err(DatabaseError::refused(&e)),
        }
    }

    /// Lists all decks with their counts at `now`: for each deck, how many
    /// cards it has, how many of them are due and how many were never
    /// reviewed.
    pub fn load_decks_at(&self, now: Timestamp) -> (r: Result<Vec<DeckInfo>, DatabaseError>)
        ensures
            r matches Ok(infos) && infos.deep_view() == deck_listing(self@, now),
    {
        proof {
            use_type_invariant(self);
        }
        let txn = self.store.begin_read();
        let decks: Vec<Record> = match txn.scan_primary(RecordKind::Deck) {
            Ok(found) => found,
            Err(e) => {
                return Err(DatabaseError::refused(&e));
            },
        };
        let ghost all = decks.deep_view();
        let mut infos: Vec<DeckInfo> = Vec::new();
        let mut i: usize = 0;
        while i < decks.len()
            invariant
                i <= decks@.len(),
                all == decks.deep_view(),
                all == of_kind(self@, RecordKind::Deck),
                txn@ == self@,
                forall|kind: RecordKind| txn.registry().spec_defines(kind),
                infos@.len() == i,
                forall|k: int| 0 <= k < i ==> infos@[k]@ == deck_summary(self@, all[k], now),
            decreases decks@.len() - i,
        {
            proof {
                self@.lemma_filter_pred(
                    |record: RecordView| record.kind() == RecordKind::Deck,
                    i as int,
                );
                assert(all[i as int] == decks@[i as int]@);
            }
            match &decks[i] {
                Record::Deck(deck) => {
                    let cards: Vec<FlashCard> = match Self::scan_deck(&txn, deck.id.as_str()) {
                        Ok(cards) => cards,
                        Err(e) => {
                            return Err(DatabaseError::refused(&e));
                        },
                    };
                    infos.push(DeckInfo::summarize(deck, &cards, now));
                },
                _ => {
                    assert(false);
                },
            }
            i = i + 1;
        }
        assert(infos.deep_view() =~= deck_listing(self@, now));
        Ok(infos)
    }

    /// Lists all decks with their counts at the time of the call.
    pub fn load_decks(&self) -> (r: Result<Vec<DeckInfo>, DatabaseError>)
        ensures
            r matches Ok(infos) && exists|now: Timestamp|
                infos.deep_view() == #[trigger] deck_listing(self@, now),
    {
        let now = Timestamp::now();
        self.load_decks_at(now)
    }

    /// Lists all saved texts: for each its identifier, its title, the
    /// beginning of the text and the date it was saved.
    pub fn load_texts(&self) -> (r: Result<Vec<TextInfo>, DatabaseError>)
        ensures
            r matches Ok(infos) && infos.deep_view() == text_listing(self@),
    {
        proof {
            use_type_invariant(self);
        }
        let txn = self.store.begin_read();
        let texts: Vec<Record> = match txn.scan_primary(RecordKind::Text) {
            Ok(found) => found,
            Err(e) => {
                return Err(DatabaseError::refused(&e));
            },
        };
        let ghost all = texts.deep_view();
        let mut infos: Vec<TextInfo> = Vec::new();
        let mut i: usize = 0;
        while i < texts.len()
            invariant
                i <= texts@.len(),
                all == texts.deep_view(),
                all == of_kind(self@, RecordKind::Text),
                infos@.len() == i,
                forall|k: int| 0 <= k < i ==> infos@[k]@ == text_summary(all[k]),
            decreases texts@.len() - i,
        {
            proof {
                self@.lemma_filter_pred(
                    |record: RecordView| record.kind() == RecordKind::Text,
                    i as int,
                );
                assert(all[i as int] == texts@[i as int]@);
            }
            match &texts[i] {
                Record::Text(text) => {
                    let label: String = match text.created_at.minute_label() {
                        Some(written) => written,
                        None => String::new(),
                    };
                    infos.push(TextInfo::project(text, label));
                },
                _ => {
                    assert(false);
                },
            }
            i = i + 1;
        }
        assert(infos.deep_view() =~= text_listing(self@));
        Ok(infos)
    }

    /// Stores a new card, never reviewed and due at `now`. A card whose
    /// identifier is taken is refused.
    pub fn save_card_at(&mut self, id: String, deck_id: String, card_type: CardType, now: Timestamp)
        -> (r: Result<(), DatabaseError>)
        ensures
            insert_outcome(
                old(self)@,
                final(self)@,
                r,
                RecordView::Card(FlashCardView::fresh(id@, deck_id@, card_type@, now)),
            ),
            r is Ok ==> stored_card(final(self)@, id@) == Some(
                FlashCardView::fresh(id@, deck_id@, card_type@, now),
            ),
            distinct_keys(final(self)@),
    {
        self.insert_record(Record::Card(FlashCard::fresh(id, deck_id, card_type, now)))
    }

    /// Stores a new card, never reviewed and due at the time of the call.
    pub fn save_card(&mut self, id: String, deck_id: String, card_type: CardType) -> (r: Result<
        (),
        DatabaseError,
    >)
        ensures
            exists|now: Timestamp| #[trigger]
                insert_outcome(
                    old(self)@,
                    final(self)@,
                    r,
                    RecordView::Card(FlashCardView::fresh(id@, deck_id@, card_type@, now)),
                ),
            distinct_keys(final(self)@),
    {
        let now = Timestamp::now();
        self.save_card_at(id, deck_id, card_type, now)
    }

    /// Writes a new review state for a card into an open transaction, and
    /// marks the card as touched at `now`. The card is replaced only if the
    /// transaction still holds it as `current`.
    fn update_card_srs(
        txn: &mut WriteTransaction,
        current: FlashCard,
        srs_data: SRSData,
        now: Timestamp,
    ) -> (r: Result<(), StoreError>)
        requires
            old(txn).registry().spec_defines(RecordKind::Card),
            lookup(old(txn)@, RecordKind::Card, current@.id) == Some(RecordView::Card(current@)),
        ensures
            r is Ok,
            final(txn)@ == old(txn)@.update(
                position_of(old(txn)@, RecordKind::Card, current@.id),
                RecordView::Card(current@.with_srs(srs_data, now)),
            ),
            final(txn).base() == old(txn).base(),
            final(txn).registry() == old(txn).registry(),
    {
        let changed = current.with_srs(srs_data, now);
        txn.update(Record::Card(current), Record::Card(changed))
    }

    /// Records that the card `id` was answered with `quality` at `now`: the
    /// card gets the review state that the schedule gives for it. The card
    /// is read, rescheduled and written back in one transaction. This is the
    /// only way in which a stored review state changes.
    pub fn record_grade_at(&mut self, id: &str, quality: Quality, now: Timestamp) -> (r: Result<
        (),
        DatabaseError,
    >)
        ensures
            review_outcome(old(self)@, final(self)@, r, id@, quality, now),
            r is Ok <==> stored_card(old(self)@, id@) is Some,
            r is Ok ==> (stored_card(final(self)@, id@) matches Some(card)
                && card.srs_data.ease_factor >= MIN_EASE && !card.srs_data.is_new),
            r is Err ==> final(self)@ == old(self)@,
            distinct_keys(final(self)@),
    {
        proof {
            use_type_invariant(&*self);
            lemma_lookup_is_at(self@, RecordKind::Card, id@);
        }
        let ghost before = self@;
        let mut txn = self.store.begin_write();
        let current: FlashCard = match txn.get_primary(RecordKind::Card, id) {
            Ok(Some(Record::Card(card))) => card,
            Ok(_) => {
                return Err(DatabaseError::QueryError(labelled("Card not found: ", id)));
            },
            Err(e) => {
                return Err(DatabaseError::refused(&e));
            },
        };
        let next = schedule(&current.srs_data, quality, now);
        proof {
            let changed = RecordView::Card(current@.with_srs(next, now));
            let i = choose|i: int| holds_at(before, i, RecordKind::Card, id@);
            lemma_distinct_first(before, i, RecordKind::Card, id@);
            lemma_replace(before, i, changed);
        }
        match Self::update_card_srs(&mut txn, current, next, now) {
            Err(e) => Err(DatabaseError::refused(&e)),
            Ok(()) => match self.apply(txn) {
                Ok(()) => Ok(()),
                Err(e) => Err(DatabaseError::refused(&e)),
            },
        }
    }

    /// Records that the card `id` was answered with `quality`, at the time of
    /// the call.
    pub fn record_grade(&mut self, id: &str, quality: Quality) -> (r: Result<(), DatabaseError>)
        ensures
            exists|now: Timestamp| #[trigger]
                review_outcome(old(self)@, final(self)@, r, id@, quality, now),
            r is Ok <==> stored_card(old(self)@, id@) is Some,
            r is Ok ==> (stored_card(final(self)@, id@) matches Some(card)
                && card.srs_data.ease_factor >= MIN_EASE && !card.srs_data.is_new),
            r is Err ==> final(self)@ == old(self)@,
            distinct_keys(final(self)@),
    {
        let now = Timestamp::now();
        self.record_grade_at(id, quality, now)
    }

    /// Records that the card `id` was answered right or wrong at `now`.
    pub fn record_review_at(&mut self, id: &str, outcome: ReviewOutcome, now: Timestamp) -> (r:
        Result<(), DatabaseError>)
        ensures
            review_outcome(old(self)@, final(self)@, r, id@, outcome.spec_quality(), now),
            r is Ok <==> stored_card(old(self)@, id@) is Some,
            r is Ok ==> (stored_card(final(self)@, id@) matches Some(card)
                && card.srs_data.ease_factor >= MIN_EASE && !card.srs_data.is_new),
            r is Err ==> final(self)@ == old(self)@,
            distinct_keys(final(self)@),
    {
        self.record_grade_at(id, outcome.quality(), now)
    }

    /// Records that the card `id` was answered right or wrong, at the time of
    /// the call.
    pub fn record_review(&mut self, id: &str, outcome: ReviewOutcome) -> (r: Result<
        (),
        DatabaseError,
    >)
        ensures
            exists|now: Timestamp| #[trigger]
                review_outcome(old(self)@, final(self)@, r, id@, outcome.spec_quality(), now),
            r is Ok <==> stored_card(old(self)@, id@) is Some,
            r is Ok ==> (stored_card(final(self)@, id@) matches Some(card)
                && card.srs_data.ease_factor >= MIN_EASE && !card.srs_data.is_new),
            r is Err ==> final(self)@ == old(self)@,
            distinct_keys(final(self)@),
    {
        let now = Timestamp::now();
        self.record_review_at(id, outcome, now)
    }

    /// The card with the identifier `id`, if there is one.
    pub fn get_card(&self, id: &str) -> (r: Result<Option<FlashCard>, DatabaseError>)
        ensures
            r matches Ok(found) && option_view(found) == stored_card(self@, id@),
    {
        proof {
            use_type_invariant(self);
            lemma_lookup_is_at(self@, RecordKind::Card, id@);
        }
        let txn = self.store.begin_read();
        match txn.get_primary(RecordKind::Card, id) {
            Ok(Some(Record::Card(card))) => Ok(Some(card)),
            Ok(_) => Ok(None),
            Err(e) => Err(DatabaseError::refused(&e)),
        }
    }

    /// Stores a new deck, created at `now`. A deck whose identifier is taken
    /// is refused.
    pub fn create_deck_at(&mut self, id: String, name: String, description: String, now: Timestamp)
        -> (r: Result<(), DatabaseError>)
        ensures
            insert_outcome(
                old(self)@,
                final(self)@,
                r,
                RecordView::Deck(DeckView::fresh(id@, name@, description@, now)),
            ),
            r is Ok ==> lookup(final(self)@, RecordKind::Deck, id@) == Some(
                RecordView::Deck(DeckView::fresh(id@, name@, description@, now)),
            ),
            distinct_keys(final(self)@),
    {
        self.insert_record(Record::Deck(Deck::fresh(id, name, description, now)))
    }

    /// Stores a new deck, created at the time of the call.
    pub fn create_deck(&mut self, id: String, name: String, description: String) -> (r: Result<
        (),
        DatabaseError,
    >)
        ensures
            exists|now: Timestamp| #[trigger]
                insert_outcome(
                    old(self)@,
                    final(self)@,
                    r,
                    RecordView::Deck(DeckView::fresh(id@, name@, description@, now)),
                ),
            distinct_keys(final(self)@),
    {
        let now = Timestamp::now();
        self.create_deck_at(id, name, description, now)
    }

    /// Stores a new text. A text whose identifier is taken is refused.
    pub fn save_text(&mut self, text: LearningText) -> (r: Result<(), DatabaseError>)
        ensures
            insert_outcome(old(self)@, final(self)@, r, RecordView::Text(text@)),
            r is Ok ==> stored_text(final(self)@, text@.id) == Some(text@),
            distinct_keys(final(self)@),
    {
        self.insert_record(Record::Text(text))
    }

    /// The saved text with the identifier `id`, if there is one.
    pub fn get_text(&self, id: &str) -> (r: Result<Option<LearningText>, DatabaseError>)
        ensures
            r matches Ok(found) && option_view(found) == stored_text(self@, id@),
    {
        proof {
            use_type_invariant(self);
            lemma_lookup_is_at(self@, RecordKind::Text, id@);
        }
        let txn = self.store.begin_read();
        match txn.get_primary(RecordKind::Text, id) {
            Ok(Some(Record::Text(text))) => Ok(Some(text)),
            Ok(_) => Ok(None),
            Err(e) => Err(DatabaseError::refused(&e)),
        }
    }

    /// Sets the setting `key` to `value`, in the place of any value it had.
    pub fn save_settings_at(&mut self, key: &str, value: &str, now: Timestamp) -> (r: Result<
        (),
        DatabaseError,
    >)
        ensures
            upsert_outcome(
                old(self)@,
                final(self)@,
                r,
                RecordView::Setting(UserSettingView { key: key@, value: value@, updated_at: now }),
            ),
            r is Ok,
            stored_setting(final(self)@, key@) == Some(value@),
            distinct_keys(final(self)@),
    {
        self.upsert_record(
            Record::Setting(
                UserSetting {
                    key: String::from_str(key),
                    value: String::from_str(value),
                    updated_at: now,
                },
            ),
        )
    }

    /// Sets the setting `key` to `value`, stamped with the time of the call.
    pub fn save_settings(&mut self, key: &str, value: &str) -> (r: Result<(), DatabaseError>)
        ensures
            exists|now: Timestamp| #[trigger]
                upsert_outcome(
                    old(self)@,
                    final(self)@,
                    r,
                    RecordView::Setting(
                        UserSettingView { key: key@, value: value@, updated_at: now },
                    ),
                ),
            r is Ok,
            stored_setting(final(self)@, key@) == Some(value@),
            distinct_keys(final(self)@),
    {
        let now = Timestamp::now();
        self.save_settings_at(key, value, now)
    }

    /// The value of the setting `key`; `None` where it was never set, which
    /// is no error.
    pub fn load_settings(&self, key: &str) -> (r: Result<Option<String>, DatabaseError>)
        ensures
            r matches Ok(found) && option_view(found) == stored_setting(self@, key@),
    {
        proof {
            use_type_invariant(self);
            lemma_lookup_is_at(self@, RecordKind::Setting, key@);
        }
        let txn = self.store.begin_read();
        match txn.get_primary(RecordKind::Setting, key) {
            Ok(Some(Record::Setting(setting))) => Ok(Some(setting.value)),
            Ok(_) => Ok(None),
            Err(e) => Err(DatabaseError::refused(&e)),
        }
    }

    /// Keeps an answer of the tutor under `key`, in the place of any answer
    /// kept there before.
    pub fn cache_llm_response_at(&mut self, key: &str, response: &str, now: Timestamp) -> (r:
        Result<(), DatabaseError>)
        ensures
            upsert_outcome(
                old(self)@,
                final(self)@,
                r,
                RecordView::CachedResponse(
                    CachedResponseView { cache_key: key@, response: response@, created_at: now },
                ),
            ),
            r is Ok,
            cached_answer(final(self)@, key@) == Some(response@),
            distinct_keys(final(self)@),
    {
        self.upsert_record(
            Record::CachedResponse(
                CachedResponse {
                    cache_key: String::from_str(key),
                    response: String::from_str(response),
                    created_at: now,
                },
            ),
        )
    }

    /// Keeps an answer of the tutor under `key`, stamped with the time of the
    /// call.
    pub fn cache_llm_response(&mut self, key: &str, response: &str) -> (r: Result<
        (),
        DatabaseError,
    >)
        ensures
            exists|now: Timestamp| #[trigger]
                upsert_outcome(
                    old(self)@,
                    final(self)@,
                    r,
                    RecordView::CachedResponse(
                        CachedResponseView {
                            cache_key: key@,
                            response: response@,
                            created_at: now,
                        },
                    ),
                ),
            r is Ok,
            cached_answer(final(self)@, key@) == Some(response@),
            distinct_keys(final(self)@),
    {
        let now = Timestamp::now();
        self.cache_llm_response_at(key, response, now)
    }

    /// The answer kept under `key`; `None` where there is none.
    pub fn get_cached_response(&self, key: &str) -> (r: Result<Option<String>, DatabaseError>)
        ensures
            r matches Ok(found) && option_view(found) == cached_answer(self@, key@),
    {
        proof {
            use_type_invariant(self);
            lemma_lookup_is_at(self@, RecordKind::CachedResponse, key@);
        }
        let txn = self.store.begin_read();
        match txn.get_primary(RecordKind::CachedResponse, key) {
            Ok(Some(Record::CachedResponse(cached))) => Ok(Some(cached.response)),
            Ok(_) => Ok(None),
            Err(e) => Err(DatabaseError::refused(&e)),
        }
    }

    /// Puts a record under its key in one transaction.
    fn upsert_record(&mut self, record: Record) -> (r: Result<(), DatabaseError>)
        ensures
            upsert_outcome(old(self)@, final(self)@, r, record@),
            lookup(final(self)@, record@.kind(), record@.key()) == Some(record@),
            distinct_keys(final(self)@),
    {
        proof {
            use_type_invariant(&*self);
        }
        let mut txn = self.store.begin_write();
        proof {
            lemma_upsert_wins(txn@, record@);
        }
        match txn.upsert(record) {
            Err(e) => Err(DatabaseError::refused(&e)),
            Ok(()) => match self.apply(txn) {
                Ok(()) => Ok(()),
                Err(e) => Err(DatabaseError::refused(&e)),
            },
        }
    }
}

} // verus!
