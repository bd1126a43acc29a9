//! The password on display.

use vstd::prelude::*;

verus! {

/// The password on display: none yet, or the one generated last.
#[derive(Debug, Clone)]
pub enum PasswordState {
    Empty,
    PasswordGenerated(String),
}

/// What a `PasswordState` says, as plain mathematical values. A generated
/// password may be the empty string; that is not the same as `Empty`.
pub enum GeneratedPassword {
    Empty,
    Generated(Seq<char>),
}

impl View for PasswordState {
    type V = GeneratedPassword;

    open spec fn view(&self) -> GeneratedPassword {
        match self {
            PasswordState::Empty => GeneratedPassword::Empty,
            PasswordState::PasswordGenerated(s) => GeneratedPassword::Generated(s@),
        }
    }
}

/// What the user asks of the password on display.
#[derive(Clone, Debug)]
pub enum PasswordMessage {
    GenPassword,
    CopyToClip,
}

impl GeneratedPassword {
    /// The display after a generation request came back with `outcome`: a
    /// generated password takes the place of whatever was shown, and an
    /// empty outcome leaves the display as it was.
    pub open spec fn replaced_by(self, outcome: GeneratedPassword) -> GeneratedPassword {
        match outcome {
            GeneratedPassword::Empty => self,
            GeneratedPassword::Generated(_) => outcome,
        }
    }
}

impl Default for PasswordState {
    fn default() -> (state: Self)
        ensures
            state@ == GeneratedPassword::Empty,
    {
        PasswordState::Empty
    }
}

impl PasswordState {
    /// Shows `message` as the generated password, unless it is the empty
    /// string: then the display stays as it was.
    pub fn update_password(&mut self, message: String)
        ensures
            message@.len() > 0 ==> final(self)@ == GeneratedPassword::Generated(message@),
            message@.len() == 0 ==> final(self)@ == old(self)@,
    {
        if !message.as_str().is_empty() {
            *self = PasswordState::PasswordGenerated(message);
        }
    }

    /// Takes in the outcome of a generation request. A generated password,
    /// the empty string too, is shown from now on; an empty outcome changes
    /// nothing, so a password shown before stays.
    pub fn replace_with(&mut self, outcome: PasswordState)
        ensures
            final(self)@ == old(self)@.replaced_by(outcome@),
    {
        match outcome {
            PasswordState::Empty => {},
            PasswordState::PasswordGenerated(s) => {
                *self = PasswordState::PasswordGenerated(s);
            },
        }
    }
}

} // verus!
