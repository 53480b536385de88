//! The settings screen: theme, font size, the user's profile, the API key of
//! the tutor, and the daily limits of practice.

use crate::constants::ui::{DEFAULT_FONT_SIZE, MAX_FONT_SIZE, MIN_FONT_SIZE};
use vstd::prelude::*;
use vstd::string::StringExecFns;

verus! {

/// What the user can do on the settings screen.
#[derive(Debug, PartialEq, Eq)]
pub enum Message {
    BackToHome,
    FontSizeChanged(u16),
    UserProfileChanged(String),
    ApiKeyChanged(String),
    DailyReviewLimitChanged(String),
    NewCardsPerDayChanged(String),
    DarkModeChanged(bool),
}

/// What a [`Message`] holds.
pub enum MessageView {
    BackToHome,
    FontSizeChanged(u16),
    UserProfileChanged(Seq<char>),
    ApiKeyChanged(Seq<char>),
    DailyReviewLimitChanged(Seq<char>),
    NewCardsPerDayChanged(Seq<char>),
    DarkModeChanged(bool),
}

impl View for Message {
    type V = MessageView;

    open spec fn view(&self) -> MessageView {
        match self {
            Message::BackToHome => MessageView::BackToHome,
            Message::FontSizeChanged(size) => MessageView::FontSizeChanged(*size),
            Message::UserProfileChanged(value) => MessageView::UserProfileChanged(value@),
            Message::ApiKeyChanged(value) => MessageView::ApiKeyChanged(value@),
            Message::DailyReviewLimitChanged(value) => MessageView::DailyReviewLimitChanged(
                value@,
            ),
            Message::NewCardsPerDayChanged(value) => MessageView::NewCardsPerDayChanged(value@),
            Message::DarkModeChanged(enabled) => MessageView::DarkModeChanged(*enabled),
        }
    }
}

impl Clone for Message {
    fn clone(&self) -> (r: Self)
        ensures
            r@ == self@,
    {
        match self {
            Message::BackToHome => Message::BackToHome,
            Message::FontSizeChanged(size) => Message::FontSizeChanged(*size),
            Message::UserProfileChanged(value) => Message::UserProfileChanged(value.clone()),
            Message::ApiKeyChanged(value) => Message::ApiKeyChanged(value.clone()),
            Message::DailyReviewLimitChanged(value) => Message::DailyReviewLimitChanged(
                value.clone(),
            ),
            Message::NewCardsPerDayChanged(value) => Message::NewCardsPerDayChanged(
                value.clone(),
            ),
            Message::DarkModeChanged(enabled) => Message::DarkModeChanged(*enabled),
        }
    }
}

/// What the settings screen holds.
pub struct SettingsState {
    pub font_size: u16,
    pub user_profile: Seq<char>,
    pub api_key: Seq<char>,
    pub daily_review_limit: Seq<char>,
    pub new_cards_per_day: Seq<char>,
    pub dark_mode: bool,
}

/// A font size brought into the range that can be set.
pub open spec fn clamped_font_size(size: u16) -> u16 {
    if size < MIN_FONT_SIZE {
        MIN_FONT_SIZE
    } else if size > MAX_FONT_SIZE {
        MAX_FONT_SIZE
    } else {
        size
    }
}

impl SettingsState {
    /// The settings the application starts with.
    pub open spec fn initial() -> SettingsState {
        SettingsState {
            font_size: DEFAULT_FONT_SIZE,
            user_profile: Seq::<char>::empty(),
            api_key: Seq::<char>::empty(),
            daily_review_limit: "20"@,
            new_cards_per_day: "10"@,
            dark_mode: true,
        }
    }

    /// The settings after a message: each message sets the one field it
    /// names, a font size within its range, and going back sets none.
    pub open spec fn after(self, message: MessageView) -> SettingsState {
        match message {
            MessageView::BackToHome => self,
            MessageView::FontSizeChanged(size) => SettingsState {
                font_size: clamped_font_size(size),
                ..self
            },
            MessageView::UserProfileChanged(value) => SettingsState { user_profile: value, ..self },
            MessageView::ApiKeyChanged(value) => SettingsState { api_key: value, ..self },
            MessageView::DailyReviewLimitChanged(value) => SettingsState {
                daily_review_limit: value,
                ..self
            },
            MessageView::NewCardsPerDayChanged(value) => SettingsState {
                new_cards_per_day: value,
                ..self
            },
            MessageView::DarkModeChanged(enabled) => SettingsState { dark_mode: enabled, ..self },
        }
    }
}

/// The settings screen.
#[derive(Debug, PartialEq, Eq)]
pub struct SettingsView {
    font_size: u16,
    user_profile: String,
    api_key: String,
    daily_review_limit: String,
    new_cards_per_day: String,
    dark_mode: bool,
}

impl View for SettingsView {
    type V = SettingsState;

    closed spec fn view(&self) -> SettingsState {
        SettingsState {
            font_size: self.font_size,
            user_profile: self.user_profile@,
            api_key: self.api_key@,
            daily_review_limit: self.daily_review_limit@,
            new_cards_per_day: self.new_cards_per_day@,
            dark_mode: self.dark_mode,
        }
    }
}

impl Clone for SettingsView {
    fn clone(&self) -> (r: Self)
        ensures
            r@ == self@,
    {
        proof {
            use_type_invariant(self);
        }
        SettingsView {
            font_size: self.font_size,
            user_profile: self.user_profile.clone(),
            api_key: self.api_key.clone(),
            daily_review_limit: self.daily_review_limit.clone(),
            new_cards_per_day: self.new_cards_per_day.clone(),
            dark_mode: self.dark_mode,
        }
    }
}

impl Default for SettingsView {
    /// The settings the application starts with: the default font size, no
    /// profile and no key, the default limits, and the dark theme.
    fn default() -> (view: SettingsView)
        ensures
            view@ == SettingsState::initial(),
    {
        SettingsView {
            font_size: DEFAULT_FONT_SIZE,
            user_profile: String::new(),
            api_key: String::new(),
            daily_review_limit: String::from_str("20"),
            new_cards_per_day: String::from_str("10"),
            dark_mode: true,
        }
    }
}

impl SettingsView {
    #[verifier::type_invariant]
    spec fn font_size_in_range(self) -> bool {
        MIN_FONT_SIZE <= self.font_size <= MAX_FONT_SIZE
    }

    /// Takes a message from the user.
    pub fn update(&mut self, message: Message)
        ensures
            final(self)@ == old(self)@.after(message@),
    {
        proof {
            use_type_invariant(&*self);
        }
        match message {
            Message::BackToHome => {},
            Message::FontSizeChanged(size) => {
                self.font_size = if size < MIN_FONT_SIZE {
                    MIN_FONT_SIZE
                } else if size > MAX_FONT_SIZE {
                    MAX_FONT_SIZE
                } else {
                    size
                };
            },
            Message::UserProfileChanged(value) => {
                self.user_profile = value;
            },
            Message::ApiKeyChanged(value) => {
                self.api_key = value;
            },
            Message::DailyReviewLimitChanged(value) => {
                self.daily_review_limit = value;
            },
            Message::NewCardsPerDayChanged(value) => {
                self.new_cards_per_day = value;
            },
            Message::DarkModeChanged(enabled) => {
                self.dark_mode = enabled;
            },
        }
    }

    /// Shows the dark-mode switch on or off, to agree with the theme.
    pub fn set_dark_mode(&mut self, dark_mode: bool)
        ensures
            final(self)@ == (SettingsState { dark_mode, ..old(self)@ }),
    {
        proof {
            use_type_invariant(&*self);
        }
        self.dark_mode = dark_mode;
    }

    /// The font size, which is always one that can be set.
    pub fn font_size(&self) -> (size: u16)
        ensures
            size == self@.font_size,
            MIN_FONT_SIZE <= size <= MAX_FONT_SIZE,
    {
        proof {
            use_type_invariant(self);
        }
        self.font_size
    }

    pub fn user_profile(&self) -> (value: &str)
        ensures
            value@ == self@.user_profile,
    {
        self.user_profile.as_str()
    }

    pub fn api_key(&self) -> (value: &str)
        ensures
            value@ == self@.api_key,
    {
        self.api_key.as_str()
    }

    pub fn daily_review_limit(&self) -> (value: &str)
        ensures
            value@ == self@.daily_review_limit,
    {
        self.daily_review_limit.as_str()
    }

    pub fn new_cards_per_day(&self) -> (value: &str)
        ensures
            value@ == self@.new_cards_per_day,
    {
        self.new_cards_per_day.as_str()
    }

    pub fn dark_mode(&self) -> (enabled: bool)
        ensures
            enabled == self@.dark_mode,
    {
        self.dark_mode
    }
}

} // verus!
