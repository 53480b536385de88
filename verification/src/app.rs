//! The application as a whole: which screen is shown, the state of each
//! screen, and the theme. Every message goes to the screen it belongs to;
//! the few that leave a screen or change the theme are handled here.

use crate::theme::AppTheme;
use crate::views::home::{HomeState, HomeView};
use crate::views::learning::{LearningState, LearningView};
use crate::views::practice::{PracticeState, PracticeView};
use crate::views::settings::{SettingsState, SettingsView};
use crate::views::{home, learning, practice, settings};
use vstd::prelude::*;

verus! {

/// The screens of the application.
#[derive(Debug, Clone, Copy, PartialEq, Eq, Structural)]
pub enum AppMode {
    Home,
    Practice,
    Learning,
    Settings,
}

/// A message to one of the screens.
#[derive(Debug, PartialEq, Eq)]
pub enum Message {
    Home(home::Message),
    Practice(practice::Message),
    Learning(learning::Message),
    Settings(settings::Message),
}

/// What a [`Message`] holds.
pub enum MessageView {
    Home(home::MessageView),
    Practice(practice::Message),
    Learning(learning::MessageView),
    Settings(settings::MessageView),
}

impl View for Message {
    type V = MessageView;

    open spec fn view(&self) -> MessageView {
        match self {
            Message::Home(message) => MessageView::Home(message@),
            Message::Practice(message) => MessageView::Practice(*message),
            Message::Learning(message) => MessageView::Learning(message@),
            Message::Settings(message) => MessageView::Settings(message@),
        }
    }
}

impl DeepView for Message {
    type V = MessageView;

    open spec fn deep_view(&self) -> MessageView {
        self@
    }
}

impl Clone for Message {
    fn clone(&self) -> (r: Self)
        ensures
            r@ == self@,
    {
        match self {
            Message::Home(message) => Message::Home(message.clone()),
            Message::Practice(message) => Message::Practice(*message),
            Message::Learning(message) => Message::Learning(message.clone()),
            Message::Settings(message) => Message::Settings(message.clone()),
        }
    }
}

/// The title of the window while a screen is shown.
pub open spec fn title_of(mode: AppMode) -> Seq<char> {
    match mode {
        AppMode::Home => "NihonRS - Home"@,
        AppMode::Practice => "NihonRS - Practice"@,
        AppMode::Learning => "NihonRS - Learning"@,
        AppMode::Settings => "NihonRS - Settings"@,
    }
}

/// The message to the application that a message of the learning screen
/// stands for.
pub open spec fn from_learning(follow: Option<learning::MessageView>) -> Option<MessageView> {
    match follow {
        Some(message) => Some(MessageView::Learning(message)),
        None => None,
    }
}

/// What the application holds.
pub struct AppState {
    pub mode: AppMode,
    pub home: HomeState,
    pub practice: PracticeState,
    pub learning: LearningState,
    pub settings: SettingsState,
    pub theme: AppTheme,
}

impl AppState {
    /// The application after it went to the screen `mode`. On the way to the
    /// settings the dark-mode switch is set to agree with the theme.
    pub open spec fn navigate(self, mode: AppMode) -> AppState {
        if mode == AppMode::Settings {
            AppState {
                mode,
                settings: SettingsState { dark_mode: self.theme is Dark, ..self.settings },
                ..self
            }
        } else {
            AppState { mode, ..self }
        }
    }

    /// The application after the theme was set, with the dark-mode switch in
    /// agreement.
    pub open spec fn themed(self, dark_mode: bool) -> AppState {
        AppState {
            theme: if dark_mode {
                AppTheme::Dark
            } else {
                AppTheme::Light
            },
            settings: SettingsState { dark_mode, ..self.settings },
            ..self
        }
    }

    /// The application after a message, and the message that follows, if
    /// one does.
    ///
    /// A message that leaves a screen changes the screen that is shown and
    /// nothing else. A message of the settings screen first reaches that
    /// screen; turning the dark mode on or off then also sets the theme.
    /// Every other message changes only the screen it belongs to.
    pub open spec fn after(self, message: MessageView) -> (AppState, Option<MessageView>) {
        match message {
            MessageView::Home(home::MessageView::NavigateToSettings) => (
                self.navigate(AppMode::Settings),
                None,
            ),
            MessageView::Home(home::MessageView::SubmitForPractice) => (
                self.navigate(AppMode::Practice),
                None,
            ),
            MessageView::Home(home::MessageView::SubmitForLearning) => (
                self.navigate(AppMode::Learning),
                None,
            ),
            MessageView::Home(other) => (AppState { home: self.home.after(other), ..self }, None),
            MessageView::Practice(practice::Message::BackToHome) => (
                self.navigate(AppMode::Home),
                None,
            ),
            MessageView::Practice(other) => (
                AppState { practice: self.practice.after(other), ..self },
                None,
            ),
            MessageView::Learning(learning::MessageView::BackToHome) => (
                self.navigate(AppMode::Home),
                None,
            ),
            MessageView::Learning(other) => (
                AppState { learning: self.learning.after(other).0, ..self },
                from_learning(self.learning.after(other).1),
            ),
            MessageView::Settings(inner) => {
                let updated = AppState { settings: self.settings.after(inner), ..self };
                match inner {
                    settings::MessageView::BackToHome => (updated.navigate(AppMode::Home), None),
                    settings::MessageView::DarkModeChanged(enabled) => (
                        updated.themed(enabled),
                        None,
                    ),
                    _ => (updated, None),
                }
            },
        }
    }
}

/// After any message, the dark-mode switch of the settings agrees with the
/// theme if it did before: no message moves one without the other.
pub proof fn lemma_switch_follows_theme(state: AppState, message: MessageView)
    requires
        state.settings.dark_mode == (state.theme is Dark),
    ensures
        state.after(message).0.settings.dark_mode == (state.after(message).0.theme is Dark),
{
}

/// The application.
pub struct App {
    mode: AppMode,
    home_view: HomeView,
    practice_view: PracticeView,
    learning_view: LearningView,
    settings_view: SettingsView,
    theme: AppTheme,
}

impl View for App {
    type V = AppState;

    closed spec fn view(&self) -> AppState {
        AppState {
            mode: self.mode,
            home: self.home_view@,
            practice: self.practice_view@,
            learning: self.learning_view@,
            settings: self.settings_view@,
            theme: self.theme,
        }
    }
}

impl Default for App {
    /// The application as it starts: the home screen, in the dark theme,
    /// with every screen in its first state.
    fn default() -> (app: App)
        ensures
            app@.mode == AppMode::Home,
            app@.theme == AppTheme::Dark,
            app@.home == HomeState::initial(),
            app@.settings == SettingsState::initial(),
            app@.practice == PracticeState::opening(practice::sample_cards()),
            app@.learning == LearningState::opening(
                "今日は日本語を勉強します。"@,
                learning::sample_segments(),
            ),
    {
        App {
            mode: AppMode::Home,
            home_view: HomeView::default(),
            practice_view: PracticeView::default(),
            learning_view: LearningView::default(),
            settings_view: SettingsView::default(),
            theme: AppTheme::default(),
        }
    }
}

impl App {
    /// The application as it starts.
    pub fn new() -> (app: App)
        ensures
            app@.mode == AppMode::Home,
            app@.theme == AppTheme::Dark,
            app@.home == HomeState::initial(),
            app@.settings == SettingsState::initial(),
            app@.practice == PracticeState::opening(practice::sample_cards()),
            app@.learning == LearningState::opening(
                "今日は日本語を勉強します。"@,
                learning::sample_segments(),
            ),
    {
        App::default()
    }

    /// The title of the window.
    pub fn title(&self) -> (title: String)
        ensures
            title@ == title_of(self@.mode),
    {
        match self.mode {
            AppMode::Home => "NihonRS - Home".to_string(),
            AppMode::Practice => "NihonRS - Practice".to_string(),
            AppMode::Learning => "NihonRS - Learning".to_string(),
            AppMode::Settings => "NihonRS - Settings".to_string(),
        }
    }

    /// Takes a message and hands back the message that follows, if one
    /// does.
    pub fn update(&mut self, message: Message) -> (follow: Option<Message>)
        ensures
            (final(self)@, crate::value::option_view(follow)) == old(self)@.after(message@),
    {
        match message {
            Message::Home(inner) => {
                self.handle_home_message(inner);
                None
            },
            Message::Practice(inner) => {
                self.handle_practice_message(inner);
                None
            },
            Message::Learning(inner) => self.handle_learning_message(inner),
            Message::Settings(inner) => {
                self.handle_settings_message(inner);
                None
            },
        }
    }

    /// Goes to the screen `mode`.
    pub fn navigate_to(&mut self, mode: AppMode)
        ensures
            final(self)@ == old(self)@.navigate(mode),
    {
        if mode == AppMode::Settings {
            self.settings_view.set_dark_mode(self.theme.is_dark());
        }
        self.mode = mode;
    }

    fn handle_home_message(&mut self, message: home::Message)
        ensures
            (final(self)@, None::<MessageView>) == old(self)@.after(MessageView::Home(message@)),
    {
        match message {
            home::Message::NavigateToSettings => {
                self.navigate_to(AppMode::Settings);
            },
            home::Message::SubmitForPractice => {
                self.navigate_to(AppMode::Practice);
            },
            home::Message::SubmitForLearning => {
                self.navigate_to(AppMode::Learning);
            },
            other => {
                self.home_view.update(other);
            },
        }
    }

    fn handle_practice_message(&mut self, message: practice::Message)
        ensures
            (final(self)@, None::<MessageView>) == old(self)@.after(
                MessageView::Practice(message),
            ),
    {
        match message {
            practice::Message::BackToHome => {
                self.navigate_to(AppMode::Home);
            },
            other => {
                self.practice_view.update(other);
            },
        }
    }

    fn handle_learning_message(&mut self, message: learning::Message) -> (follow: Option<Message>)
        ensures
            (final(self)@, crate::value::option_view(follow)) == old(self)@.after(
                MessageView::Learning(message@),
            ),
    {
        match message {
            learning::Message::BackToHome => {
                self.navigate_to(AppMode::Home);
                None
            },
            other => {
                match self.learning_view.update(other) {
                    Some(next) => Some(Message::Learning(next)),
                    None => None,
                }
            },
        }
    }

    fn handle_settings_message(&mut self, message: settings::Message)
        ensures
            (final(self)@, None::<MessageView>) == old(self)@.after(
                MessageView::Settings(message@),
            ),
    {
        let copy = message.clone();
        self.settings_view.update(copy);
        match message {
            settings::Message::BackToHome => {
                self.navigate_to(AppMode::Home);
            },
            settings::Message::DarkModeChanged(enabled) => {
                self.apply_theme(enabled);
            },
            _ => {},
        }
    }

    /// Sets the theme, and the dark-mode switch with it.
    pub fn apply_theme(&mut self, dark_mode: bool)
        ensures
            final(self)@ == old(self)@.themed(dark_mode),
    {
        self.theme = AppTheme::for_dark_mode(dark_mode);
        self.settings_view.set_dark_mode(dark_mode);
    }

    /// The screen that is shown.
    pub fn mode(&self) -> (mode: AppMode)
        ensures
            mode == self@.mode,
    {
        self.mode
    }

    /// The theme.
    pub fn theme(&self) -> (theme: AppTheme)
        ensures
            theme == self@.theme,
    {
        self.theme
    }

    pub fn home_view(&self) -> (view: &HomeView)
        ensures
            view@ == self@.home,
    {
        &self.home_view
    }

    pub fn practice_view(&self) -> (view: &PracticeView)
        ensures
            view@ == self@.practice,
    {
        &self.practice_view
    }

    pub fn learning_view(&self) -> (view: &LearningView)
        ensures
            view@ == self@.learning,
    {
        &self.learning_view
    }

    pub fn settings_view(&self) -> (view: &SettingsView)
        ensures
            view@ == self@.settings,
    {
        &self.settings_view
    }
}

} // verus!
