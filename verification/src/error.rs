//! Errors raised while a configuration is being built.

use vstd::prelude::*;

verus! {

/// Why a scratchpad, rule or layout definition was rejected.
#[derive(Clone, Copy, Debug, PartialEq, Eq, Structural)]
pub enum ConfigError {
    /// A predicate was given an empty pattern.
    MalformedPredicate,
    /// A geometry fraction lies outside the interval (0, 1].
    FractionOutOfRange,
}

impl ConfigError {
    /// A short description of the error.
    pub fn message(&self) -> (text: &'static str)
        ensures
            text@ == match *self {
                ConfigError::MalformedPredicate => "predicate pattern must not be empty"@,
                ConfigError::FractionOutOfRange => "geometry fraction must lie in (0, 1]"@,
            },
    {
        match self {
            ConfigError::MalformedPredicate => "predicate pattern must not be empty",
            ConfigError::FractionOutOfRange => "geometry fraction must lie in (0, 1]",
        }
    }
}

/// Why a handler could not run.
#[derive(Clone, Copy, Debug, PartialEq, Eq, Structural)]
pub enum PolicyError {
    /// A sticky handler ran before the sticky state was added: the wiring
    /// of the window manager is incomplete.
    MissingStickyState,
}

impl PolicyError {
    /// A short description of the error.
    pub fn message(&self) -> (text: &'static str)
        ensures
            text@ == "sticky client state was not added to the window manager"@,
    {
        match self {
            PolicyError::MissingStickyState => {
                "sticky client state was not added to the window manager"
            },
        }
    }
}

} // verus!
