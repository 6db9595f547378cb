//! What holds of every run of the poll loop.

use crate::poll::{
    action_request_for, answered, status_class, unauthorized, CommandView, Fatal, Phase,
    PollError, PollEventView, PollLoopView, PollStatus,
};
use crate::session::{refresh_outcome, refresh_request_for, AuthReplyView};
use vstd::prelude::*;

verus! {

/// A loop that has ended takes no notice of further events.
pub proof fn lemma_stopped_stays(s: PollLoopView, events: Seq<PollEventView>)
    requires
        s.phase is Stopped,
    ensures
        s.after_all(events) == s,
    decreases events.len(),
{
    if events.len() > 0 {
        lemma_stopped_stays(s, events.drop_last());
    }
}

/// A loop that is still running after `events` was running after the first `k` of them.
pub proof fn lemma_running_before(s: PollLoopView, events: Seq<PollEventView>, k: int)
    requires
        0 <= k <= events.len(),
        !(s.after_all(events).phase is Stopped),
    ensures
        !(s.after_all(events.take(k)).phase is Stopped),
    decreases events.len() - k,
{
    if k == events.len() {
        assert(events.take(k) =~= events);
    } else {
        lemma_running_before(s, events, k + 1);
        assert(events.take(k + 1).drop_last() =~= events.take(k));
    }
}

/// The count tells the confirmed attempts, not the attempts made: over any events that
/// leave the loop running, it grows by the number of poll actions answered less the
/// number of those answered as unauthorized.
pub proof fn lemma_count_is_confirmed_attempts(s: PollLoopView, events: Seq<PollEventView>)
    requires
        !(s.after_all(events).phase is Stopped),
    ensures
        unauthorized(events) <= answered(events),
        s.after_all(events).successes == s.successes + answered(events) - unauthorized(events),
    decreases events.len(),
{
    if events.len() > 0 {
        let before = events.drop_last();
        assert(events.take(events.len() - 1) =~= before);
        lemma_running_before(s, events, events.len() - 1);
        lemma_count_is_confirmed_attempts(s, before);
    }
}

/// The count that a wait reports is the loop's count.
pub proof fn lemma_wait_reports_count(s: PollLoopView)
    requires
        s.phase == Phase::Waiting,
    ensures
        s.command() == (CommandView::ReportAndWait {
            successes: s.successes,
            interval_ms: s.target.interval_ms,
        }),
{
}

/// Recovery costs no interval: an unauthorized answer calls for a refresh, and a refresh
/// that grants tokens is followed at once by the attempt, made under the new tokens and
/// with the count as it was.
pub proof fn lemma_recovery_skips_wait(s: PollLoopView, code: u16, reply: AuthReplyView)
    requires
        s.phase == Phase::Attempting,
        status_class(code) == PollStatus::Unauthorized,
        refresh_outcome(reply) is Ok,
    ensures
        s.after(PollEventView::Responded(code)).command() == CommandView::Refresh(
            refresh_request_for(s.tokens),
        ),
        s.after(PollEventView::Responded(code)).after(PollEventView::RefreshEnded(reply)) == (
        PollLoopView { tokens: refresh_outcome(reply)->Ok_0, ..s }),
        s.after(PollEventView::Responded(code)).after(
            PollEventView::RefreshEnded(reply),
        ).command() == CommandView::Attempt(
            action_request_for(s.target, refresh_outcome(reply)->Ok_0),
        ),
{
}

/// A refresh that grants no tokens ends the loop with the refresh's error, and no poll
/// action is asked for afterwards, whatever is reported.
pub proof fn lemma_refresh_failure_ends_loop(
    s: PollLoopView,
    reply: AuthReplyView,
    later: Seq<PollEventView>,
)
    requires
        s.phase == Phase::Refreshing,
        refresh_outcome(reply) is Err,
    ensures
        s.after(PollEventView::RefreshEnded(reply)).after_all(later) == s.stopped(
            Fatal::Auth(refresh_outcome(reply)->Err_0),
        ),
        !s.after(PollEventView::RefreshEnded(reply)).after_all(later).command().polls(),
{
    lemma_stopped_stays(s.after(PollEventView::RefreshEnded(reply)), later);
}

/// A poll answer that neither confirms nor reports an authorization failure ends the
/// loop: the count stays, nothing is tried again, and no poll action is asked for
/// afterwards, whatever is reported.
pub proof fn lemma_unexpected_status_ends_loop(
    s: PollLoopView,
    code: u16,
    later: Seq<PollEventView>,
)
    requires
        s.phase == Phase::Attempting,
        status_class(code) == PollStatus::Other,
    ensures
        s.after(PollEventView::Responded(code)).after_all(later) == s.stopped(
            Fatal::Poll(PollError::Unexpected),
        ),
        s.after(PollEventView::Responded(code)).after_all(later).successes == s.successes,
        !s.after(PollEventView::Responded(code)).after_all(later).command().polls(),
{
    lemma_stopped_stays(s.after(PollEventView::Responded(code)), later);
}

/// In every state the pending command presents the current token pair and no other.
pub proof fn lemma_command_presents_current_pair(s: PollLoopView)
    ensures
        s.command().presents(s.tokens),
{
}

/// Once a refresh has granted a pair, that pair is the current one until the loop takes
/// another: after any later events among which no refresh is granted, the loop holds the
/// granted pair and its pending command presents that pair.
pub proof fn lemma_granted_pair_is_presented(
    s: PollLoopView,
    reply: AuthReplyView,
    later: Seq<PollEventView>,
)
    requires
        s.phase == Phase::Refreshing,
        refresh_outcome(reply) is Ok,
        forall|k: int|
            0 <= k < later.len() ==> !(#[trigger] s.after(PollEventView::RefreshEnded(reply)).after_all(
                later.take(k),
            )).takes_pair_from(later[k]),
    ensures
        s.after(PollEventView::RefreshEnded(reply)).after_all(later).tokens == refresh_outcome(
            reply,
        )->Ok_0,
        s.after(PollEventView::RefreshEnded(reply)).after_all(later).command().presents(
            refresh_outcome(reply)->Ok_0,
        ),
    decreases later.len(),
{
    let s1 = s.after(PollEventView::RefreshEnded(reply));
    if later.len() > 0 {
        let before = later.drop_last();
        let n = later.len() - 1;
        assert(later.take(n) =~= before);
        assert forall|k: int| 0 <= k < before.len() implies !(#[trigger] s1.after_all(
            before.take(k),
        )).takes_pair_from(before[k]) by {
            assert(before.take(k) =~= later.take(k));
            assert(!s1.after_all(later.take(k)).takes_pair_from(later[k]));
        }
        lemma_granted_pair_is_presented(s, reply, before);
        assert(!s1.after_all(later.take(n)).takes_pair_from(later[n]));
    }
}

} // verus!
