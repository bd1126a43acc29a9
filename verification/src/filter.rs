//! The filter settings and the messages that edit them.

use vstd::prelude::*;

verus! {

/// The settings a password is generated from: which classes take part, how
/// long the password is, and characters added or removed by hand.
///
/// `pass_len` is kept between 6 and 30 by the slider that edits it; nothing
/// here depends on that range.
#[derive(Debug, Clone)]
pub struct FilterState {
    /// Whether the uppercase letters take part.
    pub has_upper: bool,
    /// Whether the lowercase letters take part.
    pub has_lower: bool,
    /// Whether the digits take part.
    pub has_number: bool,
    /// Whether the symbols take part.
    pub has_symbol: bool,
    /// The number of characters of a password.
    pub pass_len: u8,
    /// Characters added to the pool by hand.
    pub include_chars: String,
    /// Characters removed from the pool by hand, whatever added them.
    pub exclude_chars: String,
}

/// What a `FilterState` says, as plain mathematical values.
pub struct FilterConfig {
    pub has_upper: bool,
    pub has_lower: bool,
    pub has_number: bool,
    pub has_symbol: bool,
    pub length: nat,
    pub include_chars: Seq<char>,
    pub exclude_chars: Seq<char>,
}

impl View for FilterState {
    type V = FilterConfig;

    open spec fn view(&self) -> FilterConfig {
        FilterConfig {
            has_upper: self.has_upper,
            has_lower: self.has_lower,
            has_number: self.has_number,
            has_symbol: self.has_symbol,
            length: self.pass_len as nat,
            include_chars: self.include_chars@,
            exclude_chars: self.exclude_chars@,
        }
    }
}

/// One edit of the filter settings.
#[derive(Clone, Debug)]
pub enum FilterMessage {
    SetUpper(bool),
    SetLower(bool),
    SetNumber(bool),
    SetSymbols(bool),
    SetInclude(String),
    SetExclude(String),
    SetLength(u8),
}

impl FilterConfig {
    /// The settings a fresh `FilterState` starts with: letters of both
    /// cases, eight characters, nothing added and nothing removed.
    pub open spec fn initial() -> FilterConfig {
        FilterConfig {
            has_upper: true,
            has_lower: true,
            has_number: false,
            has_symbol: false,
            length: 8,
            include_chars: Seq::empty(),
            exclude_chars: Seq::empty(),
        }
    }

    /// The settings after one edit: the field that the message names takes
    /// the message's value, every other field stays.
    pub open spec fn edited(self, message: FilterMessage) -> FilterConfig {
        match message {
            FilterMessage::SetUpper(b) => FilterConfig { has_upper: b, ..self },
            FilterMessage::SetLower(b) => FilterConfig { has_lower: b, ..self },
            FilterMessage::SetNumber(b) => FilterConfig { has_number: b, ..self },
            FilterMessage::SetSymbols(b) => FilterConfig { has_symbol: b, ..self },
            FilterMessage::SetInclude(s) => FilterConfig { include_chars: s@, ..self },
            FilterMessage::SetExclude(s) => FilterConfig { exclude_chars: s@, ..self },
            FilterMessage::SetLength(n) => FilterConfig { length: n as nat, ..self },
        }
    }
}

impl Default for FilterState {
    fn default() -> (state: Self)
        ensures
            state@ == FilterConfig::initial(),
    {
        Self {
            has_upper: true,
            has_lower: true,
            has_number: false,
            has_symbol: false,
            pass_len: 8,
            include_chars: String::new(),
            exclude_chars: String::new(),
        }
    }
}

impl FilterState {
    /// Applies one edit.
    pub fn update(&mut self, message: FilterMessage)
        ensures
            final(self)@ == old(self)@.edited(message),
    {
        match message {
            FilterMessage::SetUpper(b) => self.has_upper = b,
            FilterMessage::SetLower(b) => self.has_lower = b,
            FilterMessage::SetNumber(b) => self.has_number = b,
            FilterMessage::SetSymbols(b) => self.has_symbol = b,
            FilterMessage::SetInclude(s) => self.include_chars = s,
            FilterMessage::SetExclude(s) => self.exclude_chars = s,
            FilterMessage::SetLength(n) => self.pass_len = n,
        }
    }
}

} // verus!
