//! What the logging side is configured with.
//!
//! The settings are made once, at start-up, from what the environment held,
//! and handed on as a value. Nothing else in the library looks at the
//! environment.

use vstd::prelude::*;

verus! {

/// The log filter used where none is given.
pub const DEFAULT_FILTER: &'static str = "info";

/// The backtrace setting used where none is given.
pub const DEFAULT_BACKTRACE: &'static str = "1";

/// Log verbosity and backtrace capture, as directives for the logging side.
#[derive(Clone, Debug, PartialEq, Eq)]
pub struct LogSettings {
    pub filter: String,
    pub backtrace: String,
}

/// Model of a [`LogSettings`].
pub struct LogSettingsModel {
    pub filter: Seq<char>,
    pub backtrace: Seq<char>,
}

impl View for LogSettings {
    type V = LogSettingsModel;

    open spec fn view(&self) -> LogSettingsModel {
        LogSettingsModel { filter: self.filter@, backtrace: self.backtrace@ }
    }
}

/// A given setting, or its default where none is given.
pub open spec fn given_or(given: Option<String>, default: Seq<char>) -> Seq<char> {
    match given {
        Some(text) => text@,
        None => default,
    }
}

impl LogSettings {
    /// Makes the settings from what was given: each value as given, or its
    /// default where it was not.
    pub fn resolve(filter: Option<String>, backtrace: Option<String>) -> (settings: LogSettings)
        ensures
            settings@.filter == given_or(filter, DEFAULT_FILTER@),
            settings@.backtrace == given_or(backtrace, DEFAULT_BACKTRACE@),
    {
        let filter = match filter {
            Some(text) => text,
            None => DEFAULT_FILTER.to_owned(),
        };
        let backtrace = match backtrace {
            Some(text) => text,
            None => DEFAULT_BACKTRACE.to_owned(),
        };
        LogSettings { filter, backtrace }
    }
}

} // verus!
