//! The poll loop as a state machine.
//!
//! The loop itself runs outside this library: the driver carries out the pending
//! [`Command`], and hands what happened back as a [`PollEvent`]. Every decision
//! (what to send, whether to count, wait, recover or stop) is taken here.

use crate::session::{
    refresh_outcome, refresh_request_for, AuthError, AuthReply, AuthReplyView, RefreshRequest,
    RefreshRequestView, Session, TokenPair, TokenPairView,
};
use vstd::prelude::*;

verus! {

/// Endpoint that adds a star; the resource id follows it.
pub const ADD_URL: &'static str =
    "http://sxz.api6.zykj.org/api/services/app/appWebSite/AddStarAsync?pageId=";

/// Endpoint that removes a star; the resource id follows it.
pub const REMOVE_URL: &'static str =
    "http://sxz.api6.zykj.org/api/services/app/appWebSite/RemoveStarAsync?pageId=";

/// HTTP status by which the server confirms a poll action.
pub const STATUS_CONFIRMED: u16 = 200;

/// HTTP status by which the server reports that the access token is no longer valid.
pub const STATUS_UNAUTHORIZED: u16 = 401;

/// The operation that the loop repeats.
#[derive(Clone, Copy, PartialEq, Eq, Structural, Debug)]
pub enum PollAction {
    Add,
    Remove,
}

/// Configuration of a loop, fixed for its life.
#[derive(Clone, Debug, PartialEq, Eq)]
pub struct PollTarget {
    pub resource_id: String,
    pub action: PollAction,
    /// Milliseconds between a confirmed attempt and the next attempt.
    pub interval_ms: u64,
}

/// Mathematical value of a [`PollTarget`].
pub struct PollTargetView {
    pub resource_id: Seq<char>,
    pub action: PollAction,
    pub interval_ms: nat,
}

impl View for PollTarget {
    type V = PollTargetView;

    open spec fn view(&self) -> PollTargetView {
        PollTargetView {
            resource_id: self.resource_id@,
            action: self.action,
            interval_ms: self.interval_ms as nat,
        }
    }
}

/// HTTP method of a poll action.
#[derive(Clone, Copy, PartialEq, Eq, Structural, Debug)]
pub enum Verb {
    Post,
    Delete,
}

/// One poll action on the wire.
#[derive(Clone, Debug, PartialEq, Eq)]
pub struct ActionRequest {
    pub verb: Verb,
    pub url: String,
    pub bearer: String,
}

/// Mathematical value of an [`ActionRequest`].
pub struct ActionRequestView {
    pub verb: Verb,
    pub url: Seq<char>,
    pub bearer: Seq<char>,
}

impl View for ActionRequest {
    type V = ActionRequestView;

    open spec fn view(&self) -> ActionRequestView {
        ActionRequestView { verb: self.verb, url: self.url@, bearer: self.bearer@ }
    }
}

/// The request that carries out `target`'s action under `tokens`: adding creates with
/// `Post`, removing deletes with `Delete`, and the access token is the bearer credential.
pub open spec fn action_request_for(
    target: PollTargetView,
    tokens: TokenPairView,
) -> ActionRequestView {
    match target.action {
        PollAction::Add => ActionRequestView {
            verb: Verb::Post,
            url: ADD_URL@ + target.resource_id,
            bearer: tokens.access_token,
        },
        PollAction::Remove => ActionRequestView {
            verb: Verb::Delete,
            url: REMOVE_URL@ + target.resource_id,
            bearer: tokens.access_token,
        },
    }
}

/// Builds [`action_request_for`].
pub fn action_request(target: &PollTarget, tokens: &TokenPair) -> (r: ActionRequest)
    ensures
        r@ == action_request_for(target@, tokens@),
{
    let (verb, base) = match target.action {
        PollAction::Add => (Verb::Post, ADD_URL),
        PollAction::Remove => (Verb::Delete, REMOVE_URL),
    };
    let mut url = String::from_str(base);
    url.append(target.resource_id.as_str());
    ActionRequest { verb, url, bearer: tokens.access_token.clone() }
}

/// The three classes of a poll response.
#[derive(Clone, Copy, PartialEq, Eq, Structural, Debug)]
pub enum PollStatus {
    /// The server applied the action.
    Confirmed,
    /// The server no longer accepts the access token.
    Unauthorized,
    /// Anything else.
    Other,
}

/// The class of the HTTP status `code`.
pub open spec fn status_class(code: u16) -> PollStatus {
    if code == STATUS_CONFIRMED {
        PollStatus::Confirmed
    } else if code == STATUS_UNAUTHORIZED {
        PollStatus::Unauthorized
    } else {
        PollStatus::Other
    }
}

/// Computes [`status_class`].
pub fn classify_status(code: u16) -> (r: PollStatus)
    ensures
        r == status_class(code),
{
    if code == STATUS_CONFIRMED {
        PollStatus::Confirmed
    } else if code == STATUS_UNAUTHORIZED {
        PollStatus::Unauthorized
    } else {
        PollStatus::Other
    }
}

/// Failure of the poll exchange itself.
#[derive(Clone, Copy, PartialEq, Eq, Structural, Debug)]
pub enum PollError {
    /// Something other than a confirmation or an authorization failure came back.
    Unexpected,
}

/// Why a loop stopped.
#[derive(Clone, Copy, PartialEq, Eq, Structural, Debug)]
pub enum Fatal {
    Auth(AuthError),
    Poll(PollError),
}

/// Where a loop stands.
#[derive(Clone, Copy, PartialEq, Eq, Structural, Debug)]
pub enum Phase {
    /// A poll action is due or under way.
    Attempting,
    /// A refresh is due or under way.
    Refreshing,
    /// The interval after a confirmed attempt is running.
    Waiting,
    /// The loop has ended for good.
    Stopped(Fatal),
}

/// What the driver reports back.
#[derive(Clone, Debug, PartialEq, Eq)]
pub enum PollEvent {
    /// The poll action was answered with this HTTP status.
    Responded(u16),
    /// The poll action failed below HTTP.
    SendFailed,
    /// The refresh exchange ended with this reply.
    RefreshEnded(AuthReply),
    /// The interval is over.
    IntervalElapsed,
}

/// Mathematical value of a [`PollEvent`].
pub enum PollEventView {
    Responded(u16),
    SendFailed,
    RefreshEnded(AuthReplyView),
    IntervalElapsed,
}

impl View for PollEvent {
    type V = PollEventView;

    open spec fn view(&self) -> PollEventView {
        match *self {
            PollEvent::Responded(code) => PollEventView::Responded(code),
            PollEvent::SendFailed => PollEventView::SendFailed,
            PollEvent::RefreshEnded(reply) => PollEventView::RefreshEnded(reply@),
            PollEvent::IntervalElapsed => PollEventView::IntervalElapsed,
        }
    }
}

/// What the driver is to do next.
#[derive(Clone, Debug, PartialEq, Eq)]
pub enum Command {
    /// Send this poll action, then report `Responded` or `SendFailed`.
    Attempt(ActionRequest),
    /// Tell the operator that the login expired, send this refresh, then report
    /// `RefreshEnded`.
    Refresh(RefreshRequest),
    /// Tell the operator of the success with this running count, wait for the
    /// interval, then report `IntervalElapsed`.
    ReportAndWait { successes: u64, interval_ms: u64 },
    /// End the loop with this failure.
    Stop(Fatal),
}

/// Mathematical value of a [`Command`].
pub enum CommandView {
    Attempt(ActionRequestView),
    Refresh(RefreshRequestView),
    ReportAndWait { successes: nat, interval_ms: nat },
    Stop(Fatal),
}

impl View for Command {
    type V = CommandView;

    open spec fn view(&self) -> CommandView {
        match *self {
            Command::Attempt(request) => CommandView::Attempt(request@),
            Command::Refresh(request) => CommandView::Refresh(request@),
            Command::ReportAndWait { successes, interval_ms } => CommandView::ReportAndWait {
                successes: successes as nat,
                interval_ms: interval_ms as nat,
            },
            Command::Stop(fatal) => CommandView::Stop(fatal),
        }
    }
}

/// Mathematical value of a [`PollLoop`].
pub struct PollLoopView {
    /// The current token pair.
    pub tokens: TokenPairView,
    pub target: PollTargetView,
    /// Number of attempts that the server has confirmed.
    pub successes: nat,
    pub phase: Phase,
}

impl PollLoopView {
    /// This loop, ended with `fatal`.
    pub open spec fn stopped(self, fatal: Fatal) -> PollLoopView {
        PollLoopView { phase: Phase::Stopped(fatal), ..self }
    }

    /// The loop after the driver has reported `event`.
    ///
    /// A confirmed attempt counts and starts the interval. An unauthorized attempt does
    /// not count and calls for a refresh; the refresh's tokens replace the current pair
    /// and the attempt is made again at once. Any other poll response, a failed send, a
    /// failed refresh and an event that does not answer the pending command end the
    /// loop. A loop that has ended stays as it is.
    pub open spec fn after(self, event: PollEventView) -> PollLoopView {
        match self.phase {
            Phase::Attempting => match event {
                PollEventView::Responded(code) => match status_class(code) {
                    PollStatus::Confirmed => PollLoopView {
                        successes: self.successes + 1,
                        phase: Phase::Waiting,
                        ..self
                    },
                    PollStatus::Unauthorized => PollLoopView { phase: Phase::Refreshing, ..self },
                    PollStatus::Other => self.stopped(Fatal::Poll(PollError::Unexpected)),
                },
                PollEventView::SendFailed => self.stopped(Fatal::Auth(AuthError::Transport)),
                _ => self.stopped(Fatal::Poll(PollError::Unexpected)),
            },
            Phase::Refreshing => match event {
                PollEventView::RefreshEnded(reply) => match refresh_outcome(reply) {
                    Ok(tokens) => PollLoopView { tokens, phase: Phase::Attempting, ..self },
                    Err(e) => self.stopped(Fatal::Auth(e)),
                },
                _ => self.stopped(Fatal::Poll(PollError::Unexpected)),
            },
            Phase::Waiting => match event {
                PollEventView::IntervalElapsed => PollLoopView { phase: Phase::Attempting, ..self },
                _ => self.stopped(Fatal::Poll(PollError::Unexpected)),
            },
            Phase::Stopped(_) => self,
        }
    }

    /// The command that is pending in this state.
    pub open spec fn command(self) -> CommandView {
        match self.phase {
            Phase::Attempting => CommandView::Attempt(
                action_request_for(self.target, self.tokens),
            ),
            Phase::Refreshing => CommandView::Refresh(refresh_request_for(self.tokens)),
            Phase::Waiting => CommandView::ReportAndWait {
                successes: self.successes,
                interval_ms: self.target.interval_ms,
            },
            Phase::Stopped(fatal) => CommandView::Stop(fatal),
        }
    }
}

impl PollLoopView {
    /// The loop after the driver has reported `events`, one after the other.
    pub open spec fn after_all(self, events: Seq<PollEventView>) -> PollLoopView
        decreases events.len(),
    {
        if events.len() == 0 {
            self
        } else {
            self.after_all(events.drop_last()).after(events.last())
        }
    }

    /// Whether `event` makes this loop take a new token pair: it is the granting reply
    /// to the refresh that the loop is waiting for.
    pub open spec fn takes_pair_from(self, event: PollEventView) -> bool {
        &&& self.phase == Phase::Refreshing
        &&& event matches PollEventView::RefreshEnded(reply)
        &&& refresh_outcome(reply) is Ok
    }
}

impl CommandView {
    /// Whether every token that this command sends is one of `tokens`: the access
    /// token as bearer credential, and in a refresh the refresh token beside it.
    pub open spec fn presents(self, tokens: TokenPairView) -> bool {
        match self {
            CommandView::Attempt(request) => request.bearer == tokens.access_token,
            CommandView::Refresh(request) => request.bearer == tokens.access_token
                && request.refresh_token == tokens.refresh_token,
            _ => true,
        }
    }

    /// Whether this command sends a poll action.
    pub open spec fn polls(self) -> bool {
        self is Attempt
    }
}

/// Number of poll actions that `events` report an answer to.
pub open spec fn answered(events: Seq<PollEventView>) -> nat
    decreases events.len(),
{
    if events.len() == 0 {
        0
    } else {
        answered(events.drop_last()) + if events.last() is Responded {
            1nat
        } else {
            0nat
        }
    }
}

/// Number of poll actions that `events` report as unauthorized.
pub open spec fn unauthorized(events: Seq<PollEventView>) -> nat
    decreases events.len(),
{
    if events.len() == 0 {
        0
    } else {
        unauthorized(events.drop_last()) + if events.last() matches PollEventView::Responded(code)
            && status_class(code) == PollStatus::Unauthorized {
            1nat
        } else {
            0nat
        }
    }
}

/// A poll loop: the session, the target, the count of confirmed attempts and the phase.
#[derive(Debug)]
pub struct PollLoop {
    session: Session,
    target: PollTarget,
    successes: u64,
    phase: Phase,
}

impl View for PollLoop {
    type V = PollLoopView;

    closed spec fn view(&self) -> PollLoopView {
        PollLoopView {
            tokens: self.session@,
            target: self.target@,
            successes: self.successes as nat,
            phase: self.phase,
        }
    }
}

impl PollLoop {
    /// A loop on `target` under `session`, with nothing counted and the first attempt due.
    pub fn start(session: Session, target: PollTarget) -> (r: PollLoop)
        ensures
            r@ == (PollLoopView {
                tokens: session@,
                target: target@,
                successes: 0,
                phase: Phase::Attempting,
            }),
    {
        PollLoop { session, target, successes: 0, phase: Phase::Attempting }
    }

    /// Number of attempts confirmed so far.
    pub fn successes(&self) -> (n: u64)
        ensures
            n as nat == self@.successes,
    {
        self.successes
    }

    /// Where the loop stands.
    pub fn phase(&self) -> (p: Phase)
        ensures
            p == self@.phase,
    {
        self.phase
    }

    /// The current token pair.
    pub fn tokens(&self) -> (t: &TokenPair)
        ensures
            t@ == self@.tokens,
    {
        self.session.tokens()
    }

    /// The loop's target.
    pub fn target(&self) -> (t: &PollTarget)
        ensures
            t@ == self@.target,
    {
        &self.target
    }

    /// The pending command.
    pub fn command(&self) -> (c: Command)
        ensures
            c@ == self@.command(),
    {
        match self.phase {
            Phase::Attempting => Command::Attempt(
                action_request(&self.target, self.session.tokens()),
            ),
            Phase::Refreshing => Command::Refresh(self.session.refresh_request()),
            Phase::Waiting => Command::ReportAndWait {
                successes: self.successes,
                interval_ms: self.target.interval_ms,
            },
            Phase::Stopped(fatal) => Command::Stop(fatal),
        }
    }

    /// Takes in `event` and returns the command that is pending afterwards.
    ///
    /// The count is kept in 64 bits: the call is open as long as the count after the
    /// event fits.
    pub fn step(&mut self, event: PollEvent) -> (c: Command)
        requires
            old(self)@.after(event@).successes <= u64::MAX,
        ensures
            final(self)@ == old(self)@.after(event@),
            c@ == final(self)@.command(),
    {
        let unexpected = Phase::Stopped(Fatal::Poll(PollError::Unexpected));
        match self.phase {
            Phase::Attempting => match event {
                PollEvent::Responded(code) => match classify_status(code) {
                    PollStatus::Confirmed => {
                        self.successes = self.successes + 1;
                        self.phase = Phase::Waiting;
                    },
                    PollStatus::Unauthorized => {
                        self.phase = Phase::Refreshing;
                    },
                    PollStatus::Other => {
                        self.phase = unexpected;
                    },
                },
                PollEvent::SendFailed => {
                    self.phase = Phase::Stopped(Fatal::Auth(AuthError::Transport));
                },
                _ => {
                    self.phase = unexpected;
                },
            },
            Phase::Refreshing => match event {
                PollEvent::RefreshEnded(reply) => match self.session.refresh(reply) {
                    Ok(()) => {
                        self.phase = Phase::Attempting;
                    },
                    Err(e) => {
                        self.phase = Phase::Stopped(Fatal::Auth(e));
                    },
                },
                _ => {
                    self.phase = unexpected;
                },
            },
            Phase::Waiting => match event {
                PollEvent::IntervalElapsed => {
                    self.phase = Phase::Attempting;
                },
                _ => {
                    self.phase = unexpected;
                },
            },
            Phase::Stopped(_) => {},
        }
        self.command()
    }
}

} // verus!
