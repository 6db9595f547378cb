//! What the operator's answers at startup mean.
//!
//! Each function takes a line as it was typed, with or without the line break.

use crate::poll::PollAction;
use crate::text::{is_digit, parse_decimal, parse_unsigned, trim, trimmed, unsigned_digits};
use vstd::prelude::*;

verus! {

/// The interval, in milliseconds, that is used where none is given.
pub const DEFAULT_INTERVAL_MS: u64 = 200;

/// The largest number that is read as a mode.
pub const MODE_MAX: u64 = 255;

/// The mode number of [`PollAction::Add`], and the one that is used where none is given.
pub const MODE_ADD: u64 = 0;

/// The mode number of [`PollAction::Remove`].
pub const MODE_REMOVE: u64 = 1;

/// A number taken from a line of input.
#[derive(Clone, Copy, PartialEq, Eq, Structural, Debug)]
pub struct Reading {
    pub value: u64,
    /// Whether the line held no number, so that `value` is the default.
    pub defaulted: bool,
}

/// The number that `line` holds once trimmed, if it is at most `max`; else `default`.
pub open spec fn reading_of(line: Seq<char>, max: nat, default: nat) -> (nat, bool) {
    match parse_unsigned(trimmed(line), max) {
        Some(v) => (v, false),
        None => (default, true),
    }
}

/// Reads a number of at most `max` from `line`, falling back to `default`.
pub fn read_number(line: &str, max: u64, default: u64) -> (r: Reading)
    ensures
        (r.value as nat, r.defaulted) == reading_of(line@, max as nat, default as nat),
{
    match parse_decimal(trim(line), max) {
        Some(value) => Reading { value, defaulted: false },
        None => Reading { value: default, defaulted: true },
    }
}

/// The interval in milliseconds that `line` asks for: the number it holds, or
/// [`DEFAULT_INTERVAL_MS`] where it holds none that fits 64 bits.
pub fn interval_from_input(line: &str) -> (r: Reading)
    ensures
        (r.value as nat, r.defaulted) == reading_of(
            line@,
            u64::MAX as nat,
            DEFAULT_INTERVAL_MS as nat,
        ),
{
    read_number(line, u64::MAX, DEFAULT_INTERVAL_MS)
}

/// How a mode was arrived at.
#[derive(Clone, Copy, PartialEq, Eq, Structural, Debug)]
pub enum ModeNote {
    /// The line named one of the two modes.
    Recognized,
    /// The line held no number up to [`MODE_MAX`]: the default mode stands in.
    Unparseable,
    /// The line held a number that names no mode: the default mode stands in, and the
    /// operator is to be warned.
    Unrecognized,
}

/// The action that the loop is to repeat, and how it was arrived at.
#[derive(Clone, Copy, PartialEq, Eq, Structural, Debug)]
pub struct ModeChoice {
    pub action: PollAction,
    pub note: ModeNote,
}

/// The mode that `line` asks for: `Remove` for [`MODE_REMOVE`], `Add` for everything else.
pub open spec fn mode_of(line: Seq<char>) -> ModeChoice {
    match parse_unsigned(trimmed(line), MODE_MAX as nat) {
        None => ModeChoice { action: PollAction::Add, note: ModeNote::Unparseable },
        Some(m) => if m == MODE_ADD {
            ModeChoice { action: PollAction::Add, note: ModeNote::Recognized }
        } else if m == MODE_REMOVE {
            ModeChoice { action: PollAction::Remove, note: ModeNote::Recognized }
        } else {
            ModeChoice { action: PollAction::Add, note: ModeNote::Unrecognized }
        },
    }
}

/// Computes [`mode_of`].
pub fn mode_from_input(line: &str) -> (r: ModeChoice)
    ensures
        r == mode_of(line@),
{
    let reading = read_number(line, MODE_MAX, MODE_ADD);
    if reading.defaulted {
        ModeChoice { action: PollAction::Add, note: ModeNote::Unparseable }
    } else if reading.value == MODE_ADD {
        ModeChoice { action: PollAction::Add, note: ModeNote::Recognized }
    } else if reading.value == MODE_REMOVE {
        ModeChoice { action: PollAction::Remove, note: ModeNote::Recognized }
    } else {
        ModeChoice { action: PollAction::Add, note: ModeNote::Unrecognized }
    }
}

/// A line that holds anything but digits, once it is trimmed and relieved of a leading
/// plus sign, holds no number: the default stands in, whatever the limit.
pub proof fn lemma_non_numeric_is_defaulted(line: Seq<char>, max: nat, default: nat, i: int)
    requires
        0 <= i < unsigned_digits(trimmed(line)).len(),
        !is_digit(unsigned_digits(trimmed(line))[i]),
    ensures
        reading_of(line, max, default) == (default, true),
{
}

/// Only the number [`MODE_REMOVE`] asks for `Remove`; every other line gives `Add`, and
/// a number from two on is marked as naming no mode.
pub proof fn lemma_mode_is_add_unless_remove(line: Seq<char>)
    ensures
        mode_of(line).action == PollAction::Remove <==> parse_unsigned(
            trimmed(line),
            MODE_MAX as nat,
        ) == Some(MODE_REMOVE as nat),
        mode_of(line).action != PollAction::Remove ==> mode_of(line).action == PollAction::Add,
        mode_of(line).note == ModeNote::Unrecognized <==> (parse_unsigned(
            trimmed(line),
            MODE_MAX as nat,
        ) matches Some(m) && m >= 2),
{
}

} // verus!
