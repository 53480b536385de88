//! A stored record: one value of one of the five kinds, under its key.

use crate::models::deck::{
    CachedResponse, CachedResponseView, Deck, DeckView, LearningText, LearningTextView,
    UserSetting, UserSettingView,
};
use crate::models::flashcard::{FlashCard, FlashCardView};
use crate::store::schema::{RecordKind, SecondaryIndex};
use crate::value::ViewEq;
use vstd::prelude::*;

verus! {

/// A record of any kind.
#[derive(Debug, PartialEq, Eq)]
pub enum Record {
    Card(FlashCard),
    Deck(Deck),
    Text(LearningText),
    CachedResponse(CachedResponse),
    Setting(UserSetting),
}

/// What a [`Record`] holds.
pub enum RecordView {
    Card(FlashCardView),
    Deck(DeckView),
    Text(LearningTextView),
    CachedResponse(CachedResponseView),
    Setting(UserSettingView),
}

impl RecordView {
    /// The kind of the record.
    pub open spec fn kind(self) -> RecordKind {
        match self {
            RecordView::Card(_) => RecordKind::Card,
            RecordView::Deck(_) => RecordKind::Deck,
            RecordView::Text(_) => RecordKind::Text,
            RecordView::CachedResponse(_) => RecordKind::CachedResponse,
            RecordView::Setting(_) => RecordKind::Setting,
        }
    }

    /// The key of the record: the field that identifies it among the records
    /// of its kind.
    pub open spec fn key(self) -> Seq<char> {
        match self {
            RecordView::Card(card) => card.id,
            RecordView::Deck(deck) => deck.id,
            RecordView::Text(text) => text.id,
            RecordView::CachedResponse(cached) => cached.cache_key,
            RecordView::Setting(setting) => setting.key,
        }
    }

    /// The value of the record under a secondary index; `None` where the
    /// index is not one of its kind.
    pub open spec fn secondary_key(self, index: SecondaryIndex) -> Option<Seq<char>> {
        match (index, self) {
            (SecondaryIndex::CardDeck, RecordView::Card(card)) => Some(card.deck_id),
            _ => None,
        }
    }

    /// Whether the record is of `kind` and has the key `key`.
    pub open spec fn is_at(self, kind: RecordKind, key: Seq<char>) -> bool {
        self.kind() == kind && self.key() == key
    }

    /// Whether the record has a value under `index` that begins with
    /// `prefix`.
    pub open spec fn matches_prefix(self, index: SecondaryIndex, prefix: Seq<char>) -> bool {
        match self.secondary_key(index) {
            Some(value) => prefix.is_prefix_of(value),
            None => false,
        }
    }
}

impl View for Record {
    type V = RecordView;

    open spec fn view(&self) -> RecordView {
        match self {
            Record::Card(card) => RecordView::Card(card@),
            Record::Deck(deck) => RecordView::Deck(deck@),
            Record::Text(text) => RecordView::Text(text@),
            Record::CachedResponse(cached) => RecordView::CachedResponse(cached@),
            Record::Setting(setting) => RecordView::Setting(setting@),
        }
    }
}

impl DeepView for Record {
    type V = RecordView;

    open spec fn deep_view(&self) -> RecordView {
        self@
    }
}

impl ViewEq for Record {
    fn duplicate(&self) -> (r: Self) {
        match self {
            Record::Card(card) => Record::Card(card.duplicate()),
            Record::Deck(deck) => Record::Deck(deck.duplicate()),
            Record::Text(text) => Record::Text(text.duplicate()),
            Record::CachedResponse(cached) => Record::CachedResponse(cached.duplicate()),
            Record::Setting(setting) => Record::Setting(setting.duplicate()),
        }
    }

    fn same(&self, other: &Self) -> (b: bool) {
        match (self, other) {
            (Record::Card(a), Record::Card(b)) => a.same(b),
            (Record::Deck(a), Record::Deck(b)) => a.same(b),
            (Record::Text(a), Record::Text(b)) => a.same(b),
            (Record::CachedResponse(a), Record::CachedResponse(b)) => a.same(b),
            (Record::Setting(a), Record::Setting(b)) => a.same(b),
            _ => false,
        }
    }
}

impl Clone for Record {
    fn clone(&self) -> (r: Self)
        ensures
            r@ == self@,
    {
        self.duplicate()
    }
}

impl Record {
    /// The kind of the record.
    pub fn kind(&self) -> (kind: RecordKind)
        ensures
            kind == self@.kind(),
    {
        match self {
            Record::Card(_) => RecordKind::Card,
            Record::Deck(_) => RecordKind::Deck,
            Record::Text(_) => RecordKind::Text,
            Record::CachedResponse(_) => RecordKind::CachedResponse,
            Record::Setting(_) => RecordKind::Setting,
        }
    }

    /// The key of the record.
    pub fn key(&self) -> (key: &str)
        ensures
            key@ == self@.key(),
    {
        match self {
            Record::Card(card) => card.id.as_str(),
            Record::Deck(deck) => deck.id.as_str(),
            Record::Text(text) => text.id.as_str(),
            Record::CachedResponse(cached) => cached.cache_key.as_str(),
            Record::Setting(setting) => setting.key.as_str(),
        }
    }

    /// The value of the record under a secondary index; `None` where the
    /// index is not one of its kind.
    pub fn secondary_key(&self, index: SecondaryIndex) -> (value: Option<&str>)
        ensures
            value is Some == self@.secondary_key(index) is Some,
            value matches Some(found) ==> self@.secondary_key(index) == Some(found@),
    {
        match (index, self) {
            (SecondaryIndex::CardDeck, Record::Card(card)) => Some(card.deck_id.as_str()),
            _ => None,
        }
    }
}

} // verus!
