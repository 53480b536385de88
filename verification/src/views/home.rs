//! The home screen: a field for Japanese text, the decks, and the texts that
//! were saved.

use crate::models::deck::{DeckInfo, DeckInfoView, TextInfo, TextInfoView};
use crate::text::{is_filled, trimmed};
use vstd::prelude::*;

verus! {

/// What the user can do on the home screen.
#[derive(Debug, PartialEq, Eq)]
pub enum Message {
    InputChanged(String),
    SubmitForPractice,
    SubmitForLearning,
    SelectDeck(String),
    SelectText(String),
    NavigateToSettings,
}

/// What a [`Message`] holds.
pub enum MessageView {
    InputChanged(Seq<char>),
    SubmitForPractice,
    SubmitForLearning,
    SelectDeck(Seq<char>),
    SelectText(Seq<char>),
    NavigateToSettings,
}

impl View for Message {
    type V = MessageView;

    open spec fn view(&self) -> MessageView {
        match self {
            Message::InputChanged(text) => MessageView::InputChanged(text@),
            Message::SubmitForPractice => MessageView::SubmitForPractice,
            Message::SubmitForLearning => MessageView::SubmitForLearning,
            Message::SelectDeck(id) => MessageView::SelectDeck(id@),
            Message::SelectText(id) => MessageView::SelectText(id@),
            Message::NavigateToSettings => MessageView::NavigateToSettings,
        }
    }
}

impl Clone for Message {
    fn clone(&self) -> (r: Self)
        ensures
            r@ == self@,
    {
        match self {
            Message::InputChanged(text) => Message::InputChanged(text.clone()),
            Message::SubmitForPractice => Message::SubmitForPractice,
            Message::SubmitForLearning => Message::SubmitForLearning,
            Message::SelectDeck(id) => Message::SelectDeck(id.clone()),
            Message::SelectText(id) => Message::SelectText(id.clone()),
            Message::NavigateToSettings => Message::NavigateToSettings,
        }
    }
}

/// What the home screen holds.
pub struct HomeState {
    pub input_text: Seq<char>,
    pub decks: Seq<DeckInfoView>,
    pub saved_texts: Seq<TextInfoView>,
}

impl HomeState {
    /// The home screen as the application starts: nothing typed, nothing
    /// listed.
    pub open spec fn initial() -> HomeState {
        HomeState {
            input_text: Seq::<char>::empty(),
            decks: Seq::<DeckInfoView>::empty(),
            saved_texts: Seq::<TextInfoView>::empty(),
        }
    }

    /// The home screen after a message: typing replaces the text in the
    /// field, and nothing else changes what the screen holds.
    pub open spec fn after(self, message: MessageView) -> HomeState {
        match message {
            MessageView::InputChanged(text) => HomeState { input_text: text, ..self },
            _ => self,
        }
    }
}

/// The home screen.
#[derive(Debug, PartialEq, Eq)]
pub struct HomeView {
    input_text: String,
    decks: Vec<DeckInfo>,
    saved_texts: Vec<TextInfo>,
}

impl View for HomeView {
    type V = HomeState;

    closed spec fn view(&self) -> HomeState {
        HomeState {
            input_text: self.input_text@,
            decks: self.decks.deep_view(),
            saved_texts: self.saved_texts.deep_view(),
        }
    }
}

impl Default for HomeView {
    fn default() -> (view: HomeView)
        ensures
            view@ == HomeState::initial(),
    {
        let view = HomeView { input_text: String::new(), decks: Vec::new(), saved_texts: Vec::new() };
        assert(view.decks.deep_view() =~= Seq::<DeckInfoView>::empty());
        assert(view.saved_texts.deep_view() =~= Seq::<TextInfoView>::empty());
        view
    }
}

impl HomeView {
    /// Whether the field holds anything but white space.
    pub fn has_valid_input(&self) -> (b: bool)
        ensures
            b == (trimmed(self@.input_text).len() > 0),
    {
        is_filled(self.input_text.as_str())
    }

    /// Takes a message from the user.
    pub fn update(&mut self, message: Message)
        ensures
            final(self)@ == old(self)@.after(message@),
    {
        match message {
            Message::InputChanged(text) => {
                self.input_text = text;
            },
            _ => {},
        }
    }

    /// Shows the given decks.
    pub fn set_decks(&mut self, decks: Vec<DeckInfo>)
        ensures
            final(self)@ == (HomeState { decks: decks.deep_view(), ..old(self)@ }),
    {
        self.decks = decks;
    }

    /// Shows the given saved texts.
    pub fn set_saved_texts(&mut self, saved_texts: Vec<TextInfo>)
        ensures
            final(self)@ == (HomeState { saved_texts: saved_texts.deep_view(), ..old(self)@ }),
    {
        self.saved_texts = saved_texts;
    }

    /// The text in the field.
    pub fn input_text(&self) -> (text: &str)
        ensures
            text@ == self@.input_text,
    {
        self.input_text.as_str()
    }

    /// The decks that are shown.
    pub fn decks(&self) -> (decks: &Vec<DeckInfo>)
        ensures
            decks.deep_view() == self@.decks,
    {
        &self.decks
    }

    /// The saved texts that are shown.
    pub fn saved_texts(&self) -> (texts: &Vec<TextInfo>)
        ensures
            texts.deep_view() == self@.saved_texts,
    {
        &self.saved_texts
    }
}

} // verus!
