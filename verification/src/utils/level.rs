//! Verbosity levels, read from text as the `tracing` crates read them.

use std::str::FromStr;
use vstd::prelude::*;

use crate::utils::decimal::parse_decimal;
use crate::utils::from_env::{
    parse_env_if_present, present_or_fails, Env, FromEnvErr, FromEnvVar, VarError,
};

verus! {

/// How verbose a span or an event is, from the least urgent to the most.
#[derive(Debug, Clone, Copy, PartialEq, Eq, Structural)]
pub enum Level {
    /// Very low priority, often extremely verbose.
    Trace,
    /// Lower priority information.
    Debug,
    /// Useful information.
    Info,
    /// A hazardous situation.
    Warn,
    /// A very serious error.
    Error,
}

/// The failure to read a level from a text.
#[derive(Debug, Clone, Copy, PartialEq, Eq, Structural)]
pub struct ParseLevelError;

impl ParseLevelError {
    /// What the failure says of the text.
    pub open spec fn text(self) -> Seq<char> {
        "error parsing level: expected one of \"error\", \"warn\", \"info\", \"debug\", \"trace\", or a number 1-5"@
    }

    /// What the failure says of the text.
    pub fn message(&self) -> (text: &'static str)
        ensures
            text@ == self.text(),
    {
        "error parsing level: expected one of \"error\", \"warn\", \"info\", \"debug\", \"trace\", or a number 1-5"
    }
}

/// The letter `c` in lower case, if it is an upper-case ASCII letter;
/// `c` itself otherwise.
pub open spec fn ascii_lower(c: char) -> char {
    if 'A' <= c && c <= 'Z' {
        ((c as u8) + 32) as char
    } else {
        c
    }
}

/// Whether two texts are the same but for the case of their ASCII letters.
pub open spec fn eq_ignore_ascii_case(a: Seq<char>, b: Seq<char>) -> bool {
    a.len() == b.len() && forall|i: int|
        0 <= i < a.len() ==> ascii_lower(#[trigger] a[i]) == ascii_lower(b[i])
}

/// The level with the number `n`, from 1 (error) to 5 (trace).
pub open spec fn level_numbered(n: int) -> Option<Level> {
    if n == 1 {
        Some(Level::Error)
    } else if n == 2 {
        Some(Level::Warn)
    } else if n == 3 {
        Some(Level::Info)
    } else if n == 4 {
        Some(Level::Debug)
    } else if n == 5 {
        Some(Level::Trace)
    } else {
        None
    }
}

/// The level with the name `text`, in any case.
pub open spec fn level_named(text: Seq<char>) -> Option<Level> {
    if eq_ignore_ascii_case(text, "error"@) {
        Some(Level::Error)
    } else if eq_ignore_ascii_case(text, "warn"@) {
        Some(Level::Warn)
    } else if eq_ignore_ascii_case(text, "info"@) {
        Some(Level::Info)
    } else if eq_ignore_ascii_case(text, "debug"@) {
        Some(Level::Debug)
    } else if eq_ignore_ascii_case(text, "trace"@) {
        Some(Level::Trace)
    } else {
        None
    }
}

/// The level that a text names: a number from 1 (error) to 5 (trace),
/// written as an unsigned integer is, or a level's name in any case.
pub open spec fn level_of(text: Seq<char>) -> Result<Level, ParseLevelError> {
    let numbered = match parse_decimal(text, 0, usize::MAX as int) {
        Ok(n) => level_numbered(n),
        Err(_) => None,
    };
    match numbered {
        Some(level) => Ok(level),
        None => match level_named(text) {
            Some(level) => Ok(level),
            None => Err(ParseLevelError),
        },
    }
}

/// Calls `tracing_core::Level::from_str` and hands back the level under its
/// own name. The contract says what that function's source shows: it
/// parses the text as a `usize`, which the standard library reads as
/// `parse_decimal` describes, and takes 1 to 5 for error to trace; for any
/// other text it compares the text with the five names without regard to
/// ASCII case.
#[verifier::external_body]
fn level_from_str(text: &str) -> (r: Result<Level, ParseLevelError>)
    ensures
        r == level_of(text@),
{
    match tracing_core::Level::from_str(text) {
        Ok(tracing_core::Level::ERROR) => Ok(Level::Error),
        Ok(tracing_core::Level::WARN) => Ok(Level::Warn),
        Ok(tracing_core::Level::INFO) => Ok(Level::Info),
        Ok(tracing_core::Level::DEBUG) => Ok(Level::Debug),
        Ok(_) => Ok(Level::Trace),
        Err(_) => Err(ParseLevelError),
    }
}

impl Level {
    /// Reads a level from its number or its name.
    pub fn parse(text: &str) -> (r: Result<Level, ParseLevelError>)
        ensures
            r == level_of(text@),
    {
        level_from_str(text)
    }
}

impl FromEnvVar for Level {
    type Error = ParseLevelError;

    open spec fn loads(
        found: Result<Seq<char>, VarError>,
        env_var: Seq<char>,
        r: Result<Self, FromEnvErr<ParseLevelError>>,
    ) -> bool {
        present_or_fails(
            found,
            env_var,
            |text: Seq<char>, p: Result<Level, ParseLevelError>| p == level_of(text),
            r,
        )
    }

    fn from_env_var(env: &Env, env_var: &str) -> (r: Result<Self, FromEnvErr<ParseLevelError>>) {
        parse_env_if_present(env, env_var, Level::parse)
    }
}

} // verus!
