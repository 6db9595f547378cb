use star_poller::poll::{
    action_request, classify_status, ActionRequest, Command, Fatal, Phase, PollAction, PollError,
    PollEvent, PollLoop, PollStatus, PollTarget, Verb, ADD_URL, REMOVE_URL, STATUS_CONFIRMED,
    STATUS_UNAUTHORIZED,
};
use star_poller::report::{
    fallback_line, success_line, FALLBACK_NOTICE, INVALID_MODE_NOTICE, REFRESH_NOTICE,
};
use star_poller::session::{AuthError, AuthReply, RefreshRequest, Session, TokenPair};

fn pair(access: &str, refresh: &str) -> TokenPair {
    TokenPair {
        access_token: access.to_string(),
        refresh_token: refresh.to_string(),
        access_expiry_hint: 3600,
        refresh_expiry_hint: 86400,
    }
}

fn grant(access: &str, refresh: &str) -> AuthReply {
    AuthReply::Body { success: true, tokens: Some(pair(access, refresh)) }
}

fn target(action: PollAction) -> PollTarget {
    PollTarget { resource_id: "143991".to_string(), action, interval_ms: 200 }
}

fn fresh_loop(action: PollAction) -> PollLoop {
    PollLoop::start(Session::login(grant("a1", "r1")).unwrap(), target(action))
}

fn add_attempt(bearer: &str) -> Command {
    Command::Attempt(ActionRequest {
        verb: Verb::Post,
        url: "http://sxz.api6.zykj.org/api/services/app/appWebSite/AddStarAsync?pageId=143991"
            .to_string(),
        bearer: bearer.to_string(),
    })
}

fn refresh_with(access: &str, refresh: &str) -> Command {
    Command::Refresh(RefreshRequest {
        url: "http://sxz.api6.zykj.org/api/TokenAuth/RefreshToken".to_string(),
        bearer: access.to_string(),
        refresh_token: refresh.to_string(),
    })
}

const UNEXPECTED: Command = Command::Stop(Fatal::Poll(PollError::Unexpected));

#[test]
fn statuses_fall_into_three_classes() {
    assert_eq!(STATUS_CONFIRMED, 200);
    assert_eq!(STATUS_UNAUTHORIZED, 401);
    assert_eq!(classify_status(200), PollStatus::Confirmed);
    assert_eq!(classify_status(401), PollStatus::Unauthorized);
    for code in 0u16..=u16::MAX {
        if code != 200 && code != 401 {
            assert_eq!(classify_status(code), PollStatus::Other, "{}", code);
        }
    }
}

#[test]
fn action_request_adds_by_post_and_removes_by_delete() {
    assert_eq!(
        ADD_URL,
        "http://sxz.api6.zykj.org/api/services/app/appWebSite/AddStarAsync?pageId="
    );
    assert_eq!(
        REMOVE_URL,
        "http://sxz.api6.zykj.org/api/services/app/appWebSite/RemoveStarAsync?pageId="
    );
    let tokens = pair("a1", "r1");
    assert_eq!(Command::Attempt(action_request(&target(PollAction::Add), &tokens)), add_attempt("a1"));
    assert_eq!(
        action_request(&target(PollAction::Remove), &tokens),
        ActionRequest {
            verb: Verb::Delete,
            url:
                "http://sxz.api6.zykj.org/api/services/app/appWebSite/RemoveStarAsync?pageId=143991"
                    .to_string(),
            bearer: "a1".to_string(),
        }
    );
}

#[test]
fn a_new_loop_has_counted_nothing_and_attempts_first() {
    let lp = fresh_loop(PollAction::Add);
    assert_eq!(lp.successes(), 0);
    assert_eq!(lp.phase(), Phase::Attempting);
    assert_eq!(lp.tokens(), &pair("a1", "r1"));
    assert_eq!(lp.target(), &target(PollAction::Add));
    assert_eq!(lp.command(), add_attempt("a1"));
    assert_eq!(lp.announcement(), None);
}

#[test]
fn a_confirmed_attempt_counts_and_waits_the_interval() {
    let mut lp = fresh_loop(PollAction::Add);
    let command = lp.step(PollEvent::Responded(200));
    assert_eq!(command, Command::ReportAndWait { successes: 1, interval_ms: 200 });
    assert_eq!(lp.command(), command);
    assert_eq!(lp.phase(), Phase::Waiting);
    assert_eq!(lp.successes(), 1);
    assert_eq!(lp.announcement(), Some("Add star success (x1)".to_string()));
    assert_eq!(lp.step(PollEvent::IntervalElapsed), add_attempt("a1"));
    assert_eq!(lp.phase(), Phase::Attempting);
    assert_eq!(lp.successes(), 1);
}

#[test]
fn counter_counts_confirmed_attempts_only() {
    // Six attempts, two of them unauthorized and recovered: four are counted.
    let mut lp = fresh_loop(PollAction::Add);
    let unauthorized_at = [1usize, 4];
    let mut generation = 1;
    for attempt in 0..6 {
        assert_eq!(lp.phase(), Phase::Attempting);
        if unauthorized_at.contains(&attempt) {
            let before = lp.successes();
            lp.step(PollEvent::Responded(401));
            assert_eq!(lp.successes(), before);
            generation += 1;
            let reply = grant(&format!("a{}", generation), &format!("r{}", generation));
            lp.step(PollEvent::RefreshEnded(reply));
            assert_eq!(lp.successes(), before);
        } else {
            lp.step(PollEvent::Responded(200));
            lp.step(PollEvent::IntervalElapsed);
        }
    }
    assert_eq!(lp.successes(), 4);
    assert_eq!(lp.phase(), Phase::Attempting);
}

#[test]
fn counter_equals_attempts_when_none_is_unauthorized() {
    let mut lp = fresh_loop(PollAction::Remove);
    for n in 1..=50u64 {
        assert_eq!(
            lp.step(PollEvent::Responded(200)),
            Command::ReportAndWait { successes: n, interval_ms: 200 }
        );
        lp.step(PollEvent::IntervalElapsed);
    }
    assert_eq!(lp.successes(), 50);
}

#[test]
fn recovery_does_not_wait() {
    let mut lp = fresh_loop(PollAction::Add);
    assert_eq!(lp.step(PollEvent::Responded(401)), refresh_with("a1", "r1"));
    assert_eq!(lp.phase(), Phase::Refreshing);
    assert_eq!(lp.announcement(), Some("Login expired, refreshing token...".to_string()));
    // The command after the refresh is the attempt itself, not a wait.
    assert_eq!(lp.step(PollEvent::RefreshEnded(grant("a2", "r2"))), add_attempt("a2"));
    assert_eq!(lp.phase(), Phase::Attempting);
    assert_eq!(lp.successes(), 0);
    assert_eq!(lp.announcement(), None);
}

#[test]
fn refresh_rejection_ends_the_loop() {
    let mut lp = fresh_loop(PollAction::Add);
    lp.step(PollEvent::Responded(200));
    lp.step(PollEvent::IntervalElapsed);
    lp.step(PollEvent::Responded(401));
    let stop = Command::Stop(Fatal::Auth(AuthError::RefreshRejected));
    assert_eq!(lp.step(PollEvent::RefreshEnded(AuthReply::Undecodable)), stop);
    assert_eq!(lp.phase(), Phase::Stopped(Fatal::Auth(AuthError::RefreshRejected)));
    assert_eq!(lp.successes(), 1);
    // Nothing that is reported afterwards brings the loop back to polling.
    assert_eq!(lp.step(PollEvent::IntervalElapsed), stop);
    assert_eq!(lp.step(PollEvent::Responded(200)), stop);
    assert_eq!(lp.step(PollEvent::RefreshEnded(grant("a2", "r2"))), stop);
    assert_eq!(lp.step(PollEvent::SendFailed), stop);
    assert_eq!(lp.successes(), 1);
    assert_eq!(lp.tokens(), &pair("a1", "r1"));
    assert_eq!(lp.announcement(), None);
}

#[test]
fn refresh_refused_by_the_server_ends_the_loop() {
    let mut lp = fresh_loop(PollAction::Add);
    lp.step(PollEvent::Responded(401));
    let reply = AuthReply::Body { success: false, tokens: None };
    assert_eq!(
        lp.step(PollEvent::RefreshEnded(reply)),
        Command::Stop(Fatal::Auth(AuthError::RefreshRejected))
    );
}

#[test]
fn refresh_transport_failure_ends_the_loop() {
    let mut lp = fresh_loop(PollAction::Add);
    lp.step(PollEvent::Responded(401));
    let stop = Command::Stop(Fatal::Auth(AuthError::Transport));
    assert_eq!(lp.step(PollEvent::RefreshEnded(AuthReply::NoResponse)), stop);
    assert_eq!(lp.step(PollEvent::IntervalElapsed), stop);
}

#[test]
fn unexpected_status_ends_the_loop_without_counting() {
    for code in [0u16, 100, 201, 204, 302, 400, 403, 404, 500, 503, 999, u16::MAX] {
        let mut lp = fresh_loop(PollAction::Add);
        lp.step(PollEvent::Responded(200));
        lp.step(PollEvent::IntervalElapsed);
        assert_eq!(lp.step(PollEvent::Responded(code)), UNEXPECTED, "{}", code);
        assert_eq!(lp.phase(), Phase::Stopped(Fatal::Poll(PollError::Unexpected)));
        assert_eq!(lp.successes(), 1);
        assert_eq!(lp.step(PollEvent::IntervalElapsed), UNEXPECTED);
        assert_eq!(lp.step(PollEvent::Responded(200)), UNEXPECTED);
        assert_eq!(lp.successes(), 1);
    }
}

#[test]
fn failed_send_ends_the_loop_without_counting() {
    let mut lp = fresh_loop(PollAction::Remove);
    let stop = Command::Stop(Fatal::Auth(AuthError::Transport));
    assert_eq!(lp.step(PollEvent::SendFailed), stop);
    assert_eq!(lp.successes(), 0);
    assert_eq!(lp.step(PollEvent::Responded(200)), stop);
    assert_eq!(lp.successes(), 0);
}

#[test]
fn an_event_that_answers_no_pending_command_ends_the_loop() {
    let mut lp = fresh_loop(PollAction::Add);
    assert_eq!(lp.step(PollEvent::IntervalElapsed), UNEXPECTED);

    let mut lp = fresh_loop(PollAction::Add);
    assert_eq!(lp.step(PollEvent::RefreshEnded(grant("a2", "r2"))), UNEXPECTED);
    assert_eq!(lp.tokens(), &pair("a1", "r1"));

    let mut lp = fresh_loop(PollAction::Add);
    lp.step(PollEvent::Responded(200));
    assert_eq!(lp.step(PollEvent::Responded(200)), UNEXPECTED);
    assert_eq!(lp.successes(), 1);

    let mut lp = fresh_loop(PollAction::Add);
    lp.step(PollEvent::Responded(401));
    assert_eq!(lp.step(PollEvent::Responded(200)), UNEXPECTED);
    assert_eq!(lp.successes(), 0);

    let mut lp = fresh_loop(PollAction::Add);
    lp.step(PollEvent::Responded(401));
    assert_eq!(lp.step(PollEvent::SendFailed), UNEXPECTED);
}

#[test]
fn requests_after_a_refresh_use_the_new_pair_only() {
    let mut lp = fresh_loop(PollAction::Remove);
    lp.step(PollEvent::Responded(401));
    lp.step(PollEvent::RefreshEnded(grant("a2", "r2")));
    assert_eq!(lp.tokens(), &pair("a2", "r2"));
    let events = [
        PollEvent::Responded(200),
        PollEvent::IntervalElapsed,
        PollEvent::Responded(200),
        PollEvent::IntervalElapsed,
        PollEvent::Responded(401),
    ];
    let mut command = lp.command();
    for event in events {
        match &command {
            Command::Attempt(request) => {
                assert_eq!(request.bearer, "a2");
                assert_eq!(request.verb, Verb::Delete);
            }
            Command::Refresh(request) => {
                assert_eq!(request.bearer, "a2");
                assert_eq!(request.refresh_token, "r2");
            }
            _ => {}
        }
        command = lp.step(event);
    }
    // The second expiry presents the second pair, and the third pair takes over after it.
    assert_eq!(command, refresh_with("a2", "r2"));
    match lp.step(PollEvent::RefreshEnded(grant("a3", "r3"))) {
        Command::Attempt(request) => assert_eq!(request.bearer, "a3"),
        other => panic!("{:?}", other),
    }
    assert_eq!(lp.tokens(), &pair("a3", "r3"));
}

#[test]
fn end_to_end_three_successes_then_expiry_then_success() {
    let session = Session::login(grant("a1", "r1")).unwrap();
    let mut lp = PollLoop::start(session, target(PollAction::Add));
    let events = [
        PollEvent::Responded(200),
        PollEvent::IntervalElapsed,
        PollEvent::Responded(200),
        PollEvent::IntervalElapsed,
        PollEvent::Responded(200),
        PollEvent::IntervalElapsed,
        PollEvent::Responded(401),
        PollEvent::RefreshEnded(grant("a2", "r2")),
        PollEvent::Responded(200),
        PollEvent::IntervalElapsed,
    ];
    let mut printed: Vec<String> = Vec::new();
    let mut counts: Vec<u64> = Vec::new();
    let mut commands: Vec<Command> = vec![lp.command()];
    for event in events {
        let command = lp.step(event);
        if let Some(line) = lp.announcement() {
            printed.push(line);
        }
        if let Command::ReportAndWait { successes, .. } = &command {
            counts.push(*successes);
        }
        commands.push(command);
    }
    assert_eq!(counts, vec![1, 2, 3, 4]);
    assert_eq!(
        printed,
        vec![
            "Add star success (x1)",
            "Add star success (x2)",
            "Add star success (x3)",
            "Login expired, refreshing token...",
            "Add star success (x4)",
        ]
    );
    let wait = |n: u64| Command::ReportAndWait { successes: n, interval_ms: 200 };
    assert_eq!(
        commands,
        vec![
            add_attempt("a1"),
            wait(1),
            add_attempt("a1"),
            wait(2),
            add_attempt("a1"),
            wait(3),
            add_attempt("a1"),
            refresh_with("a1", "r1"),
            add_attempt("a2"),
            wait(4),
            add_attempt("a2"),
        ]
    );
    // The loop goes on.
    assert_eq!(lp.phase(), Phase::Attempting);
    assert_eq!(lp.successes(), 4);
}

#[test]
fn success_line_names_the_action_and_the_count() {
    assert_eq!(success_line(PollAction::Add, 1), "Add star success (x1)");
    assert_eq!(success_line(PollAction::Add, 12), "Add star success (x12)");
    assert_eq!(success_line(PollAction::Remove, 3), "Remove star success (x3)");
    assert_eq!(
        success_line(PollAction::Remove, u64::MAX),
        "Remove star success (x18446744073709551615)"
    );
}

#[test]
fn notices_have_their_wording() {
    assert_eq!(REFRESH_NOTICE, "Login expired, refreshing token...");
    assert_eq!(INVALID_MODE_NOTICE, "Invalid mode, using 0");
    assert_eq!(FALLBACK_NOTICE, "error parsing input, using ");
    assert_eq!(fallback_line(200), "error parsing input, using 200");
    assert_eq!(fallback_line(0), "error parsing input, using 0");
}

#[test]
fn remove_loop_reports_remove_lines() {
    let mut lp = fresh_loop(PollAction::Remove);
    lp.step(PollEvent::Responded(200));
    assert_eq!(lp.announcement(), Some("Remove star success (x1)".to_string()));
}
