//! The lines that the driver shows the operator.

use crate::poll::{Phase, PollAction, PollLoop, PollLoopView};
use crate::text::{decimal_string, decimal_text};
use vstd::prelude::*;

verus! {

/// Start of the line that reports a confirmed `Add`; the running count follows.
pub const ADD_SUCCESS: &'static str = "Add star success (x";

/// Start of the line that reports a confirmed `Remove`; the running count follows.
pub const REMOVE_SUCCESS: &'static str = "Remove star success (x";

/// End of a line that reports a confirmed attempt.
pub const SUCCESS_END: &'static str = ")";

/// The line that announces a refresh.
pub const REFRESH_NOTICE: &'static str = "Login expired, refreshing token...";

/// Start of the line that says that an answer held no number; the default follows.
pub const FALLBACK_NOTICE: &'static str = "error parsing input, using ";

/// The line that says that a mode number names no mode.
pub const INVALID_MODE_NOTICE: &'static str = "Invalid mode, using 0";

/// The line that reports the `successes`-th confirmed attempt of `action`.
pub open spec fn success_text(action: PollAction, successes: nat) -> Seq<char> {
    match action {
        PollAction::Add => ADD_SUCCESS@ + decimal_text(successes) + SUCCESS_END@,
        PollAction::Remove => REMOVE_SUCCESS@ + decimal_text(successes) + SUCCESS_END@,
    }
}

/// Writes [`success_text`].
pub fn success_line(action: PollAction, successes: u64) -> (r: String)
    ensures
        r@ == success_text(action, successes as nat),
{
    let mut line = match action {
        PollAction::Add => String::from_str(ADD_SUCCESS),
        PollAction::Remove => String::from_str(REMOVE_SUCCESS),
    };
    let count = decimal_string(successes);
    line.append(count.as_str());
    line.append(SUCCESS_END);
    line
}

/// The line that says that `default` stands in for an answer that held no number.
pub fn fallback_line(default: u64) -> (r: String)
    ensures
        r@ == FALLBACK_NOTICE@ + decimal_text(default as nat),
{
    let mut line = String::from_str(FALLBACK_NOTICE);
    let number = decimal_string(default);
    line.append(number.as_str());
    line
}

impl PollLoopView {
    /// The line that goes with the pending command: the running count before a wait,
    /// the notice before a refresh, none otherwise.
    pub open spec fn announcement(self) -> Option<Seq<char>> {
        match self.phase {
            Phase::Waiting => Some(success_text(self.target.action, self.successes)),
            Phase::Refreshing => Some(REFRESH_NOTICE@),
            _ => None,
        }
    }
}

impl PollLoop {
    /// The line to show before the pending command is carried out, if it has one.
    pub fn announcement(&self) -> (r: Option<String>)
        ensures
            r matches Some(line) ==> self@.announcement() == Some(line@),
            r is None ==> self@.announcement() is None,
    {
        match self.phase() {
            Phase::Waiting => Some(success_line(self.target().action, self.successes())),
            Phase::Refreshing => Some(String::from_str(REFRESH_NOTICE)),
            _ => None,
        }
    }
}

} // verus!
