//! The application state and its reaction to events.

use rand::rngs::SmallRng;
use vstd::prelude::*;

use crate::filter::{FilterConfig, FilterState};
use crate::generate::{drawn_from, generate_password};
use crate::message::{Action, Message};
use crate::password::{GeneratedPassword, PasswordMessage, PasswordState};

verus! {

/// The application state: the password on display and the filter settings.
#[derive(Debug)]
pub struct State {
    pass_state: PasswordState,
    filter_state: FilterState,
}

/// What a `State` says, as plain mathematical values.
pub struct StateView {
    pub password: GeneratedPassword,
    pub filter: FilterConfig,
}

impl View for State {
    type V = StateView;

    closed spec fn view(&self) -> StateView {
        StateView { password: self.pass_state@, filter: self.filter_state@ }
    }
}

/// `action` is what `CopyToClip` asks for while `password` is on display:
/// a generated password goes to the clipboard, and without one there is
/// nothing to do.
pub open spec fn copied(password: GeneratedPassword, action: Action) -> bool {
    match password {
        GeneratedPassword::Generated(shown) => action matches Action::WriteClipboard(text)
            && text@ == shown,
        GeneratedPassword::Empty => action is Nothing,
    }
}

/// Reacting to `message` under the settings `filter` makes no draw: the
/// message asks for no password, or the pool is empty, or the length is
/// zero.
pub open spec fn draws_nothing(filter: FilterConfig, message: Message) -> bool {
    match message {
        Message::PasswordMessage(PasswordMessage::GenPassword) => filter.pool().is_empty()
            || filter.length == 0,
        _ => true,
    }
}

impl Default for State {
    fn default() -> (state: Self)
        ensures
            state@.password == GeneratedPassword::Empty,
            state@.filter == FilterConfig::initial(),
    {
        State { pass_state: PasswordState::default(), filter_state: FilterState::default() }
    }
}

impl State {
    /// The state the application starts in: no password yet, and the
    /// initial filter settings.
    pub fn new() -> (state: Self)
        ensures
            state@.password == GeneratedPassword::Empty,
            state@.filter == FilterConfig::initial(),
    {
        State::default()
    }

    /// The window title.
    pub fn title(&self) -> (title: String)
        ensures
            title@ == "Password Generator"@,
    {
        "Password Generator".to_owned()
    }

    /// The password on display.
    pub fn password(&self) -> (password: &PasswordState)
        ensures
            password@ == self@.password,
    {
        &self.pass_state
    }

    /// The filter settings.
    pub fn filter(&self) -> (filter: &FilterState)
        ensures
            filter@ == self@.filter,
    {
        &self.filter_state
    }

    /// Generates a password for the current filter settings. The state is
    /// not touched: `update` decides what becomes of the result.
    pub fn generate_password(&self, rng: &mut SmallRng) -> (out: PasswordState)
        ensures
            self@.filter.pool().is_empty() ==> out@ == GeneratedPassword::Empty,
            !self@.filter.pool().is_empty() ==> (out@ matches GeneratedPassword::Generated(password)
                && drawn_from(self@.filter.pool(), self@.filter.length, password)),
            self@.filter.pool().is_empty() || self@.filter.length == 0 ==> *final(rng) == *old(
                rng,
            ),
    {
        generate_password(&self.filter_state, rng)
    }

    /// Reacts to one event and says what the shell has to do.
    ///
    /// - `SetFilter` edits the filter settings.
    /// - `GenPassword` generates a password for the current settings and
    ///   shows it. Where the pool is empty nothing is generated, and the
    ///   password shown before stays.
    /// - `CopyToClip` asks for the password on display to be put on the
    ///   clipboard, if there is one.
    /// - `TabPressed` moves the focus, backwards with shift.
    /// - `ToggleFullscreen` asks for the window mode to change.
    ///
    /// Only `GenPassword` takes anything from `rng`, and only where there
    /// is something to draw.
    pub fn update(&mut self, message: Message, rng: &mut SmallRng) -> (action: Action)
        ensures
            draws_nothing(old(self)@.filter, message) ==> *final(rng) == *old(rng),
            match message {
                Message::SetFilter(edit) => {
                    &&& final(self)@.filter == old(self)@.filter.edited(edit)
                    &&& final(self)@.password == old(self)@.password
                    &&& action is Nothing
                },
                Message::PasswordMessage(PasswordMessage::GenPassword) => {
                    let pool = old(self)@.filter.pool();
                    &&& final(self)@.filter == old(self)@.filter
                    &&& action is Nothing
                    &&& pool.is_empty() ==> final(self)@.password == old(self)@.password
                    &&& !pool.is_empty() ==> (final(self)@.password
                        matches GeneratedPassword::Generated(password) && drawn_from(
                        pool,
                        old(self)@.filter.length,
                        password,
                    ))
                },
                Message::PasswordMessage(PasswordMessage::CopyToClip) => {
                    &&& final(self)@ == old(self)@
                    &&& copied(old(self)@.password, action)
                },
                Message::TabPressed { shift } => {
                    &&& final(self)@ == old(self)@
                    &&& shift ==> action is FocusPrevious
                    &&& !shift ==> action is FocusNext
                },
                Message::ToggleFullscreen(mode) => {
                    &&& final(self)@ == old(self)@
                    &&& action == Action::ChangeMode(mode)
                },
            },
    {
        match message {
            Message::SetFilter(edit) => {
                self.filter_state.update(edit);
                Action::Nothing
            },
            Message::PasswordMessage(PasswordMessage::GenPassword) => {
                let outcome = self.generate_password(rng);
                self.pass_state.replace_with(outcome);
                Action::Nothing
            },
            Message::PasswordMessage(PasswordMessage::CopyToClip) => {
                match &self.pass_state {
                    PasswordState::PasswordGenerated(s) => Action::WriteClipboard(s.clone()),
                    PasswordState::Empty => Action::Nothing,
                }
            },
            Message::TabPressed { shift } => {
                if shift {
                    Action::FocusPrevious
                } else {
                    Action::FocusNext
                }
            },
            Message::ToggleFullscreen(mode) => Action::ChangeMode(mode),
        }
    }
}

} // verus!
