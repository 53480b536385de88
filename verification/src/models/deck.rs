//! Decks, saved texts, cached answers and settings, and the summaries that
//! the home screen shows of them.

use crate::models::flashcard::{FlashCard, FlashCardView};
use crate::models::word::{WordSegment, WordSegmentView};
use crate::text::{leading, truncate_chars};
use crate::time::Timestamp;
use crate::value::{duplicate_all, same_all, ViewEq};
use vstd::prelude::*;

verus! {

/// How many characters of a text its preview shows at most.
pub const PREVIEW_CHARS: usize = 100;

/// A deck of flashcards. Which cards belong to it is not stored here: each
/// card names its deck.
#[derive(Debug, PartialEq, Eq)]
pub struct Deck {
    pub id: String,
    pub name: String,
    pub description: String,
    pub created_at: Timestamp,
    pub updated_at: Timestamp,
}

/// What a [`Deck`] holds.
pub struct DeckView {
    pub id: Seq<char>,
    pub name: Seq<char>,
    pub description: Seq<char>,
    pub created_at: Timestamp,
    pub updated_at: Timestamp,
}

impl DeckView {
    /// A deck as it is first stored at `now`.
    pub open spec fn fresh(
        id: Seq<char>,
        name: Seq<char>,
        description: Seq<char>,
        now: Timestamp,
    ) -> DeckView {
        DeckView { id, name, description, created_at: now, updated_at: now }
    }
}

impl View for Deck {
    type V = DeckView;

    open spec fn view(&self) -> DeckView {
        DeckView {
            id: self.id@,
            name: self.name@,
            description: self.description@,
            created_at: self.created_at,
            updated_at: self.updated_at,
        }
    }
}

impl DeepView for Deck {
    type V = DeckView;

    open spec fn deep_view(&self) -> DeckView {
        self@
    }
}

impl ViewEq for Deck {
    fn duplicate(&self) -> (r: Self) {
        Deck {
            id: self.id.clone(),
            name: self.name.clone(),
            description: self.description.clone(),
            created_at: self.created_at,
            updated_at: self.updated_at,
        }
    }

    fn same(&self, other: &Self) -> (b: bool) {
        self.id == other.id && self.name == other.name && self.description == other.description
            && self.created_at == other.created_at && self.updated_at == other.updated_at
    }
}

impl Clone for Deck {
    fn clone(&self) -> (r: Self)
        ensures
            r@ == self@,
    {
        self.duplicate()
    }
}

impl Deck {
    /// A deck as it is first stored: created and last touched at `now`.
    pub fn fresh(id: String, name: String, description: String, now: Timestamp) -> (deck: Deck)
        ensures
            deck@ == DeckView::fresh(id@, name@, description@, now),
    {
        Deck { id, name, description, created_at: now, updated_at: now }
    }
}

/// The cards of `cards` that are due at `now`.
pub open spec fn due_cards(cards: Seq<FlashCardView>, now: Timestamp) -> Seq<FlashCardView> {
    cards.filter(|card: FlashCardView| card.srs_data.spec_is_due(now))
}

/// The cards of `cards` that have never been reviewed.
pub open spec fn new_cards(cards: Seq<FlashCardView>) -> Seq<FlashCardView> {
    cards.filter(|card: FlashCardView| card.srs_data.is_new)
}

/// A deck as the home screen lists it, with its counts. Computed when asked
/// for, never stored.
#[derive(Debug, PartialEq, Eq)]
pub struct DeckInfo {
    pub id: String,
    pub name: String,
    pub total_cards: usize,
    pub due_cards: usize,
    pub new_cards: usize,
}

/// What a [`DeckInfo`] holds.
pub struct DeckInfoView {
    pub id: Seq<char>,
    pub name: Seq<char>,
    pub total_cards: nat,
    pub due_cards: nat,
    pub new_cards: nat,
}

impl DeckInfoView {
    /// The summary of a deck with the given cards at `now`: how many cards
    /// there are, how many of them are due, how many were never reviewed. A
    /// card that is both due and new counts once in each.
    pub open spec fn summary(deck: DeckView, cards: Seq<FlashCardView>, now: Timestamp)
        -> DeckInfoView {
        DeckInfoView {
            id: deck.id,
            name: deck.name,
            total_cards: cards.len(),
            due_cards: due_cards(cards, now).len(),
            new_cards: new_cards(cards).len(),
        }
    }
}

impl View for DeckInfo {
    type V = DeckInfoView;

    open spec fn view(&self) -> DeckInfoView {
        DeckInfoView {
            id: self.id@,
            name: self.name@,
            total_cards: self.total_cards as nat,
            due_cards: self.due_cards as nat,
            new_cards: self.new_cards as nat,
        }
    }
}

impl DeepView for DeckInfo {
    type V = DeckInfoView;

    open spec fn deep_view(&self) -> DeckInfoView {
        self@
    }
}

impl ViewEq for DeckInfo {
    fn duplicate(&self) -> (r: Self) {
        DeckInfo {
            id: self.id.clone(),
            name: self.name.clone(),
            total_cards: self.total_cards,
            due_cards: self.due_cards,
            new_cards: self.new_cards,
        }
    }

    fn same(&self, other: &Self) -> (b: bool) {
        self.id == other.id && self.name == other.name && self.total_cards == other.total_cards
            && self.due_cards == other.due_cards && self.new_cards == other.new_cards
    }
}

impl Clone for DeckInfo {
    fn clone(&self) -> (r: Self)
        ensures
            r@ == self@,
    {
        self.duplicate()
    }
}

/// In every summary the due cards and the new cards are each at most as many
/// as the cards of the deck, and a deck without cards has none of either.
pub proof fn lemma_summary_counts(deck: DeckView, cards: Seq<FlashCardView>, now: Timestamp)
    ensures
        DeckInfoView::summary(deck, cards, now).due_cards <= DeckInfoView::summary(
            deck,
            cards,
            now,
        ).total_cards,
        DeckInfoView::summary(deck, cards, now).new_cards <= DeckInfoView::summary(
            deck,
            cards,
            now,
        ).total_cards,
        cards.len() == 0 ==> {
            &&& DeckInfoView::summary(deck, cards, now).total_cards == 0
            &&& DeckInfoView::summary(deck, cards, now).due_cards == 0
            &&& DeckInfoView::summary(deck, cards, now).new_cards == 0
        },
{
    cards.lemma_filter_len(|card: FlashCardView| card.srs_data.spec_is_due(now));
    cards.lemma_filter_len(|card: FlashCardView| card.srs_data.is_new);
}

impl DeckInfo {
    /// Counts the cards of a deck: all of them, those due at `now`, and those
    /// never reviewed.
    pub fn summarize(deck: &Deck, cards: &Vec<FlashCard>, now: Timestamp) -> (info: DeckInfo)
        ensures
            info@ == DeckInfoView::summary(deck@, cards.deep_view(), now),
            info.due_cards <= info.total_cards,
            info.new_cards <= info.total_cards,
    {
        let ghost all = cards.deep_view();
        let mut due: usize = 0;
        let mut fresh: usize = 0;
        let mut i: usize = 0;
        while i < cards.len()
            invariant
                i <= cards@.len(),
                all == cards.deep_view(),
                due <= i,
                fresh <= i,
                due == due_cards(all.take(i as int), now).len(),
                fresh == new_cards(all.take(i as int)).len(),
            decreases cards@.len() - i,
        {
            proof {
                reveal(Seq::filter);
                assert(all.take(i + 1).drop_last() =~= all.take(i as int));
                assert(all.take(i + 1).last() == cards@[i as int]@);
            }
            if cards[i].srs_data.is_due(now) {
                due = due + 1;
            }
            if cards[i].srs_data.is_new {
                fresh = fresh + 1;
            }
            i = i + 1;
        }
        proof {
            assert(all.take(i as int) =~= all);
        }
        DeckInfo {
            id: deck.id.clone(),
            name: deck.name.clone(),
            total_cards: cards.len(),
            due_cards: due,
            new_cards: fresh,
        }
    }
}

/// A text saved for reading, with the words it was cut into.
#[derive(Debug, PartialEq, Eq)]
pub struct LearningText {
    pub id: String,
    pub title: String,
    pub original_text: String,
    pub tokenized_segments: Vec<WordSegment>,
    pub created_at: Timestamp,
    pub updated_at: Timestamp,
}

/// What a [`LearningText`] holds.
pub struct LearningTextView {
    pub id: Seq<char>,
    pub title: Seq<char>,
    pub original_text: Seq<char>,
    pub tokenized_segments: Seq<WordSegmentView>,
    pub created_at: Timestamp,
    pub updated_at: Timestamp,
}

impl View for LearningText {
    type V = LearningTextView;

    open spec fn view(&self) -> LearningTextView {
        LearningTextView {
            id: self.id@,
            title: self.title@,
            original_text: self.original_text@,
            tokenized_segments: self.tokenized_segments.deep_view(),
            created_at: self.created_at,
            updated_at: self.updated_at,
        }
    }
}

impl DeepView for LearningText {
    type V = LearningTextView;

    open spec fn deep_view(&self) -> LearningTextView {
        self@
    }
}

impl ViewEq for LearningText {
    fn duplicate(&self) -> (r: Self) {
        LearningText {
            id: self.id.clone(),
            title: self.title.clone(),
            original_text: self.original_text.clone(),
            tokenized_segments: duplicate_all(&self.tokenized_segments),
            created_at: self.created_at,
            updated_at: self.updated_at,
        }
    }

    fn same(&self, other: &Self) -> (b: bool) {
        self.id == other.id && self.title == other.title && self.original_text
            == other.original_text && same_all(
            &self.tokenized_segments,
            &other.tokenized_segments,
        ) && self.created_at == other.created_at && self.updated_at == other.updated_at
    }
}

impl Clone for LearningText {
    fn clone(&self) -> (r: Self)
        ensures
            r@ == self@,
    {
        self.duplicate()
    }
}

/// A saved text as the home screen lists it. Computed when asked for, never
/// stored.
#[derive(Debug, PartialEq, Eq)]
pub struct TextInfo {
    pub id: String,
    pub title: String,
    /// The beginning of the text, [`PREVIEW_CHARS`] characters at most.
    pub preview: String,
    /// When the text was saved, written out to the minute.
    pub created_at: String,
}

/// What a [`TextInfo`] holds.
pub struct TextInfoView {
    pub id: Seq<char>,
    pub title: Seq<char>,
    pub preview: Seq<char>,
    pub created_at: Seq<char>,
}

impl TextInfoView {
    /// The listing of a text: its identifier and title, its first
    /// [`PREVIEW_CHARS`] characters, and the label given for its date.
    pub open spec fn listing(text: LearningTextView, created_label: Seq<char>) -> TextInfoView {
        TextInfoView {
            id: text.id,
            title: text.title,
            preview: leading(text.original_text, PREVIEW_CHARS as nat),
            created_at: created_label,
        }
    }
}

impl View for TextInfo {
    type V = TextInfoView;

    open spec fn view(&self) -> TextInfoView {
        TextInfoView {
            id: self.id@,
            title: self.title@,
            preview: self.preview@,
            created_at: self.created_at@,
        }
    }
}

impl DeepView for TextInfo {
    type V = TextInfoView;

    open spec fn deep_view(&self) -> TextInfoView {
        self@
    }
}

impl ViewEq for TextInfo {
    fn duplicate(&self) -> (r: Self) {
        TextInfo {
            id: self.id.clone(),
            title: self.title.clone(),
            preview: self.preview.clone(),
            created_at: self.created_at.clone(),
        }
    }

    fn same(&self, other: &Self) -> (b: bool) {
        self.id == other.id && self.title == other.title && self.preview == other.preview
            && self.created_at == other.created_at
    }
}

impl Clone for TextInfo {
    fn clone(&self) -> (r: Self)
        ensures
            r@ == self@,
    {
        self.duplicate()
    }
}

impl TextInfo {
    /// Lists a text under the given date label. The preview is cut from a
    /// copy: the text itself is left as it is.
    pub fn project(text: &LearningText, created_label: String) -> (info: TextInfo)
        ensures
            info@ == TextInfoView::listing(text@, created_label@),
            info.preview@.len() <= PREVIEW_CHARS,
    {
        TextInfo {
            id: text.id.clone(),
            title: text.title.clone(),
            preview: truncate_chars(text.original_text.as_str(), PREVIEW_CHARS),
            created_at: created_label,
        }
    }
}

/// An answer of the tutor, kept under a key made from the question.
#[derive(Debug, PartialEq, Eq)]
pub struct CachedResponse {
    pub cache_key: String,
    pub response: String,
    pub created_at: Timestamp,
}

/// What a [`CachedResponse`] holds.
pub struct CachedResponseView {
    pub cache_key: Seq<char>,
    pub response: Seq<char>,
    pub created_at: Timestamp,
}

impl View for CachedResponse {
    type V = CachedResponseView;

    open spec fn view(&self) -> CachedResponseView {
        CachedResponseView {
            cache_key: self.cache_key@,
            response: self.response@,
            created_at: self.created_at,
        }
    }
}

impl DeepView for CachedResponse {
    type V = CachedResponseView;

    open spec fn deep_view(&self) -> CachedResponseView {
        self@
    }
}

impl ViewEq for CachedResponse {
    fn duplicate(&self) -> (r: Self) {
        CachedResponse {
            cache_key: self.cache_key.clone(),
            response: self.response.clone(),
            created_at: self.created_at,
        }
    }

    fn same(&self, other: &Self) -> (b: bool) {
        self.cache_key == other.cache_key && self.response == other.response && self.created_at
            == other.created_at
    }
}

impl Clone for CachedResponse {
    fn clone(&self) -> (r: Self)
        ensures
            r@ == self@,
    {
        self.duplicate()
    }
}

/// One setting of the user: a name and its value.
#[derive(Debug, PartialEq, Eq)]
pub struct UserSetting {
    pub key: String,
    pub value: String,
    pub updated_at: Timestamp,
}

/// What a [`UserSetting`] holds.
pub struct UserSettingView {
    pub key: Seq<char>,
    pub value: Seq<char>,
    pub updated_at: Timestamp,
}

impl View for UserSetting {
    type V = UserSettingView;

    open spec fn view(&self) -> UserSettingView {
        UserSettingView { key: self.key@, value: self.value@, updated_at: self.updated_at }
    }
}

impl DeepView for UserSetting {
    type V = UserSettingView;

    open spec fn deep_view(&self) -> UserSettingView {
        self@
    }
}

impl ViewEq for UserSetting {
    fn duplicate(&self) -> (r: Self) {
        UserSetting {
            key: self.key.clone(),
            value: self.value.clone(),
            updated_at: self.updated_at,
        }
    }

    fn same(&self, other: &Self) -> (b: bool) {
        self.key == other.key && self.value == other.value && self.updated_at == other.updated_at
    }
}

impl Clone for UserSetting {
    fn clone(&self) -> (r: Self)
        ensures
            r@ == self@,
    {
        self.duplicate()
    }
}

} // verus!
