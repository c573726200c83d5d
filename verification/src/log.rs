//! Logging levels and their names.
//!
//! The sink that writes the messages lives with the application; this
//! module holds what can be decided about levels alone: their relative
//! severity, their display labels, and reading a level out of a
//! configuration value (case-insensitively).

use vstd::prelude::*;

use crate::config::chars_of;

verus! {

/// The logging levels, quietest first.
#[derive(Clone, Copy, Debug, PartialEq, Eq, Structural)]
pub enum Level {
    Off,
    Fatal,
    Error,
    Warning,
    Info,
    Debug,
}

/// Rank of a level: higher ranks are more verbose, so a message is
/// emitted when its level's rank is at most the configured one.
pub open spec fn level_rank_spec(l: Level) -> u8 {
    match l {
        Level::Off => 0,
        Level::Fatal => 1,
        Level::Error => 2,
        Level::Warning => 3,
        Level::Info => 4,
        Level::Debug => 5,
    }
}

/// The label a level is printed under.
pub open spec fn level_label_spec(l: Level) -> Seq<char> {
    match l {
        Level::Off => ""@,
        Level::Fatal => "FATAL"@,
        Level::Error => "ERROR"@,
        Level::Warning => "WARN"@,
        Level::Info => "INFO"@,
        Level::Debug => "DEBUG"@,
    }
}

/// A character folded to lower case where it is an ASCII capital,
/// expressed as a code point.
pub open spec fn lower_code_spec(c: char) -> u32 {
    if 'A' <= c && c <= 'Z' {
        ((c as u32) + 32) as u32
    } else {
        c as u32
    }
}

/// Whether two character sequences agree up to ASCII case.
pub open spec fn eq_ignore_case_spec(a: Seq<char>, b: Seq<char>) -> bool {
    a.len() == b.len() && forall|i: int|
        0 <= i < a.len() ==> lower_code_spec(a[i]) == lower_code_spec(b[i])
}

/// The level a configuration value names, compared without regard to
/// ASCII case; `None` on a value that names no level.
pub open spec fn level_of_str_spec(s: Seq<char>) -> Option<Level> {
    if eq_ignore_case_spec(s, "debug"@) {
        Some(Level::Debug)
    } else if eq_ignore_case_spec(s, "info"@) {
        Some(Level::Info)
    } else if eq_ignore_case_spec(s, "warning"@) {
        Some(Level::Warning)
    } else if eq_ignore_case_spec(s, "error"@) {
        Some(Level::Error)
    } else if eq_ignore_case_spec(s, "fatal"@) {
        Some(Level::Fatal)
    } else if eq_ignore_case_spec(s, "off"@) {
        Some(Level::Off)
    } else {
        None
    }
}

impl Level {
    /// Rank of this level; a message is emitted when its level's rank
    /// is at most the configured level's.
    pub fn rank(&self) -> (r: u8)
        ensures
            r == level_rank_spec(*self),
    {
        match *self {
            Level::Off => 0,
            Level::Fatal => 1,
            Level::Error => 2,
            Level::Warning => 3,
            Level::Info => 4,
            Level::Debug => 5,
        }
    }

    /// The label this level is printed under.
    pub fn label(&self) -> (r: &'static str)
        ensures
            r@ == level_label_spec(*self),
    {
        match *self {
            Level::Off => "",
            Level::Fatal => "FATAL",
            Level::Error => "ERROR",
            Level::Warning => "WARN",
            Level::Info => "INFO",
            Level::Debug => "DEBUG",
        }
    }
}

/// A character's code point, folded to lower case where it is an ASCII
/// capital.
fn lower_code(c: char) -> (r: u32)
    ensures
        r == lower_code_spec(c),
{
    if 'A' <= c && c <= 'Z' {
        (c as u32) + 32
    } else {
        c as u32
    }
}

/// Whether a character sequence agrees with a string up to ASCII case.
fn eq_ignore_case(a: &Vec<char>, b: &str) -> (r: bool)
    ensures
        r == eq_ignore_case_spec(a@, b@),
{
    let bc = chars_of(b);
    if a.len() != bc.len() {
        return false;
    }
    let mut i: usize = 0;
    while i < a.len()
        invariant
            i <= a@.len(),
            a@.len() == bc@.len(),
            bc@ == b@,
            forall|j: int| 0 <= j < i ==> lower_code_spec(a@[j]) == lower_code_spec(bc@[j]),
        decreases a@.len() - i,
    {
        if lower_code(a[i]) != lower_code(bc[i]) {
            return false;
        }
        i = i + 1;
    }
    true
}

/// The level a configuration value names, compared without regard to
/// ASCII case; `None` on a value that names no level.
pub fn str_to_loglvl(s: &str) -> (r: Option<Level>)
    ensures
        r == level_of_str_spec(s@),
{
    let cs = chars_of(s);
    if eq_ignore_case(&cs, "debug") {
        Some(Level::Debug)
    } else if eq_ignore_case(&cs, "info") {
        Some(Level::Info)
    } else if eq_ignore_case(&cs, "warning") {
        Some(Level::Warning)
    } else if eq_ignore_case(&cs, "error") {
        Some(Level::Error)
    } else if eq_ignore_case(&cs, "fatal") {
        Some(Level::Fatal)
    } else if eq_ignore_case(&cs, "off") {
        Some(Level::Off)
    } else {
        None
    }
}

} // verus!
