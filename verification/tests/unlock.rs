use pam_keepassxc::bus::ConnectError;
use pam_keepassxc::config::{UserConfig, UserIdentity};
use pam_keepassxc::peer::{ExecRecord, VerifyError};
use pam_keepassxc::request::Request;
use pam_keepassxc::bus::Timeouts;
use pam_keepassxc::unlock::{
    try_unlock, try_unlock_within, Action, Content, Event, Stage, UnlockAttempt, UnlockError,
};
use std::path::Path;

const UNIT: &str = "/org/freedesktop/systemd1/unit/app_2dkeepassxc_2eservice";

fn begin(immediate: bool) -> (UnlockAttempt, Action) {
    let user = UserIdentity {
        uid: 1000,
        gid: 1000,
        home: "/home/alice".to_string(),
        name: "alice".to_string(),
    };
    let config = UserConfig::new("$HOME/Databases/main.kdbx".to_string());
    try_unlock(immediate, &user, &config)
}

fn call(request: Request) -> Action {
    Action::Call { request, timeout_ms: 30_000 }
}

fn failed(error: UnlockError) -> Action {
    Action::Finish { result: Err(error) }
}

fn untrusted() -> Action {
    failed(UnlockError::Verify(VerifyError::UntrustedPeer))
}

fn answer(content: Content) -> Event {
    Event::Answered { error: false, content }
}

fn pong() -> Event {
    answer(Content::Unread)
}

fn owner(pid: u32) -> Event {
    answer(Content::Pid { pid })
}

fn unit() -> Event {
    answer(Content::Unit { object: UNIT.to_string() })
}

fn exec_start(path: &str, pid: u32) -> Event {
    answer(Content::ExecStart { records: vec![ExecRecord { path: path.to_string(), pid }] })
}

fn sent() -> Event {
    Event::Sent { written: true }
}

fn run(attempt: UnlockAttempt, events: Vec<Event>) -> (UnlockAttempt, Vec<Action>) {
    let mut attempt = attempt;
    let mut actions = Vec::new();
    for event in events {
        let (next, action) = attempt.advance(event);
        attempt = next;
        actions.push(action);
    }
    (attempt, actions)
}

fn up_to_exec_start(pid: u32) -> Vec<Event> {
    vec![Event::Connected, pong(), owner(pid), unit()]
}

fn asks_to_open(actions: &[Action]) -> bool {
    actions.iter().any(|action| {
        matches!(action, Action::Call { request: Request::OpenDatabase { .. }, .. })
    })
}

#[test]
fn attempt_begins_by_connecting_to_the_users_bus() {
    for immediate in [true, false] {
        let (attempt, first) = begin(immediate);
        assert_eq!(attempt.stage(), Stage::Connecting);
        match first {
            Action::Connect { address, timeout_ms } => {
                assert_eq!(address.path(), Some(Path::new("/run/user/1000/bus")));
                assert_eq!(timeout_ms, 30_000);
            }
            other => panic!("{:?}", other),
        }
    }
}

#[test]
fn verified_peer_is_asked_to_open_the_database() {
    let (attempt, _) = begin(true);
    let mut events = up_to_exec_start(500);
    events.push(exec_start("/usr/bin/keepassxc", 500));
    events.push(sent());
    let (attempt, actions) = run(attempt, events);
    assert_eq!(
        actions,
        vec![
            call(Request::Ping),
            call(Request::OwnerPid),
            call(Request::UnitByPid { pid: 500 }),
            call(Request::ExecStart { unit: UNIT.to_string() }),
            call(Request::OpenDatabase { path: "/home/alice/Databases/main.kdbx".to_string() }),
            Action::Finish { result: Ok(()) },
        ]
    );
    assert_eq!(attempt.stage(), Stage::Finished);
}

#[test]
fn stages_follow_the_protocol() {
    let (attempt, _) = begin(true);
    let (attempt, _) = attempt.advance(Event::Connected);
    assert_eq!(attempt.stage(), Stage::Pinging);
    let (attempt, _) = attempt.advance(pong());
    assert_eq!(attempt.stage(), Stage::FindingOwner);
    let (attempt, _) = attempt.advance(owner(7));
    assert_eq!(attempt.stage(), Stage::FindingUnit { pid: 7 });
    let (attempt, _) = attempt.advance(unit());
    assert_eq!(attempt.stage(), Stage::ReadingExecStart { pid: 7 });
    let (attempt, _) = attempt.advance(exec_start("/usr/bin/keepassxc", 7));
    assert_eq!(attempt.stage(), Stage::Unlocking);
}

#[test]
fn other_program_is_not_asked_to_open_the_database() {
    let (attempt, _) = begin(true);
    let mut events = up_to_exec_start(500);
    events.push(exec_start("/usr/bin/evil", 500));
    let (attempt, actions) = run(attempt, events);
    assert_eq!(actions.last(), Some(&untrusted()));
    assert!(!asks_to_open(&actions));
    assert_eq!(attempt.stage(), Stage::Finished);
}

#[test]
fn other_process_is_not_asked_to_open_the_database() {
    let (attempt, _) = begin(true);
    let mut events = up_to_exec_start(500);
    events.push(exec_start("/usr/bin/keepassxc", 501));
    let (_, actions) = run(attempt, events);
    assert_eq!(actions.last(), Some(&untrusted()));
    assert!(!asks_to_open(&actions));
}

#[test]
fn empty_exec_start_is_untrusted() {
    let (attempt, _) = begin(true);
    let mut events = up_to_exec_start(500);
    events.push(answer(Content::ExecStart { records: vec![] }));
    let (_, actions) = run(attempt, events);
    assert_eq!(actions.last(), Some(&untrusted()));
}

#[test]
fn records_out_of_turn_open_nothing() {
    let good = || exec_start("/usr/bin/keepassxc", 500);
    for skipped in 0..4 {
        let (attempt, _) = begin(true);
        let mut events = up_to_exec_start(500);
        events.truncate(skipped);
        events.push(good());
        events.push(good());
        events.push(sent());
        let (attempt, actions) = run(attempt, events);
        assert!(!asks_to_open(&actions));
        assert_eq!(attempt.stage(), Stage::Finished);
    }
}

#[test]
fn refused_connection_ends_an_immediate_attempt() {
    let (attempt, _) = begin(true);
    let (attempt, action) = attempt.advance(Event::Refused { elapsed_ms: 3 });
    assert_eq!(action, failed(UnlockError::Connect(ConnectError::Refused)));
    assert_eq!(attempt.stage(), Stage::Finished);
}

#[test]
fn awaited_attempt_sleeps_and_connects_again() {
    let (attempt, first) = begin(false);
    let (attempt, action) = attempt.advance(Event::Refused { elapsed_ms: 3 });
    assert_eq!(action, Action::Sleep { ms: 1_000 });
    assert_eq!(attempt.stage(), Stage::Connecting);
    let (attempt, action) = attempt.advance(Event::Slept { elapsed_ms: 0 });
    assert_eq!(action, first);
    let (attempt, action) = attempt.advance(Event::Refused { elapsed_ms: 29_999 });
    assert_eq!(action, Action::Sleep { ms: 1_000 });
    let (_, action) = attempt.advance(Event::Connected);
    assert_eq!(action, call(Request::Ping));
}

#[test]
fn awaited_attempt_times_out() {
    let (attempt, _) = begin(false);
    let (attempt, action) = attempt.advance(Event::Refused { elapsed_ms: 30_000 });
    assert_eq!(action, failed(UnlockError::Timeout));
    assert_eq!(attempt.stage(), Stage::Finished);
}

#[test]
fn immediate_attempt_does_not_sleep() {
    let (attempt, _) = begin(true);
    let (_, action) = attempt.advance(Event::Slept { elapsed_ms: 0 });
    assert_eq!(action, failed(UnlockError::Connect(ConnectError::Refused)));
}

#[test]
fn silent_peer_is_unreachable() {
    let error = Event::Answered { error: true, content: Content::Unread };
    for event in [Event::Unsent, Event::Unanswered, sent(), Event::Slept { elapsed_ms: 1 }, error]
    {
        let (attempt, _) = begin(true);
        let (_, actions) = run(attempt, vec![Event::Connected, event]);
        assert_eq!(
            actions.last(),
            Some(&failed(UnlockError::Verify(VerifyError::PeerUnreachable)))
        );
    }
}

#[test]
fn error_in_answer_to_the_ping_is_no_answer() {
    for content in [Content::Unread, Content::Unreadable, Content::Pid { pid: 500 }] {
        let (attempt, _) = begin(true);
        let error = Event::Answered { error: true, content };
        let (attempt, actions) = run(attempt, vec![Event::Connected, error]);
        assert_eq!(
            actions.last(),
            Some(&failed(UnlockError::Verify(VerifyError::PeerUnreachable)))
        );
        assert_eq!(attempt.stage(), Stage::Finished);
    }
}

#[test]
fn owner_named_with_an_error_is_untrusted() {
    let (attempt, _) = begin(true);
    let named = Event::Answered { error: true, content: Content::Pid { pid: 500 } };
    let (attempt, actions) = run(attempt, vec![Event::Connected, pong(), named]);
    assert_eq!(actions.last(), Some(&untrusted()));
    assert_eq!(attempt.stage(), Stage::Finished);
}

#[test]
fn records_given_with_an_error_are_untrusted() {
    let (attempt, _) = begin(true);
    let mut events = up_to_exec_start(500);
    let records = vec![ExecRecord { path: "/usr/bin/keepassxc".to_string(), pid: 500 }];
    events.push(Event::Answered { error: true, content: Content::ExecStart { records } });
    let (attempt, actions) = run(attempt, events);
    assert_eq!(actions.last(), Some(&untrusted()));
    assert!(!asks_to_open(&actions));
    assert_eq!(attempt.stage(), Stage::Finished);
}

#[test]
fn failed_lookups_are_untrusted() {
    for done in 2..=4 {
        for event in [
            Event::Unsent,
            Event::Unanswered,
            answer(Content::Unreadable),
            answer(Content::Unread),
        ] {
            let (attempt, _) = begin(true);
            let mut events = up_to_exec_start(500);
            events.truncate(done);
            events.push(event);
            let (attempt, actions) = run(attempt, events);
            assert_eq!(actions.last(), Some(&untrusted()));
            assert_eq!(attempt.stage(), Stage::Finished);
        }
    }
}

#[test]
fn answers_of_another_kind_are_untrusted() {
    let (attempt, _) = begin(true);
    let (_, actions) = run(attempt, vec![Event::Connected, pong(), unit()]);
    assert_eq!(actions.last(), Some(&untrusted()));
    let (attempt, _) = begin(true);
    let (_, actions) = run(attempt, vec![Event::Connected, pong(), owner(500), owner(500)]);
    assert_eq!(actions.last(), Some(&untrusted()));
    let (attempt, _) = begin(true);
    let mut events = up_to_exec_start(500);
    events.push(unit());
    let (_, actions) = run(attempt, events);
    assert_eq!(actions.last(), Some(&untrusted()));
}

#[test]
fn unit_named_with_an_error_is_untrusted() {
    let (attempt, _) = begin(true);
    let named =
        Event::Answered { error: true, content: Content::Unit { object: UNIT.to_string() } };
    let (_, actions) = run(attempt, vec![Event::Connected, pong(), owner(500), named]);
    assert_eq!(actions.last(), Some(&untrusted()));
}

#[test]
fn unsent_call_is_a_send_error() {
    for event in [Event::Unsent, Event::Unanswered, pong()] {
        let (attempt, _) = begin(true);
        let mut events = up_to_exec_start(500);
        events.push(exec_start("/usr/bin/keepassxc", 500));
        events.push(event);
        let (_, actions) = run(attempt, events);
        assert_eq!(actions.last(), Some(&failed(UnlockError::Send)));
    }
}

#[test]
fn call_that_was_not_written_out_was_not_sent() {
    let (attempt, _) = begin(true);
    let mut events = up_to_exec_start(500);
    events.push(exec_start("/usr/bin/keepassxc", 500));
    events.push(Event::Sent { written: false });
    let (attempt, actions) = run(attempt, events);
    assert_eq!(actions.last(), Some(&failed(UnlockError::Send)));
    assert_eq!(attempt.stage(), Stage::Finished);
}

#[test]
fn finished_attempt_asks_for_nothing() {
    let (attempt, _) = begin(true);
    let (attempt, _) = attempt.advance(Event::Unsent);
    assert_eq!(attempt.stage(), Stage::Finished);
    let before = attempt.clone();
    let (attempt, actions) = run(
        attempt,
        vec![Event::Connected, pong(), exec_start("/usr/bin/keepassxc", 500), sent()],
    );
    assert_eq!(actions, vec![Action::Idle, Action::Idle, Action::Idle, Action::Idle]);
    assert_eq!(attempt, before);
}

#[test]
fn timeouts_of_the_callers_choice_are_kept() {
    let user = UserIdentity { uid: 7, gid: 7, home: "/h".to_string(), name: "u".to_string() };
    let config = UserConfig::new("~/db".to_string());
    let timeouts = Timeouts { overall_ms: 500, poll_ms: 20, call_ms: 90 };
    let (attempt, first) = try_unlock_within(timeouts, false, &user, &config);
    match first {
        Action::Connect { address, timeout_ms } => {
            assert_eq!(address.path(), Some(Path::new("/run/user/7/bus")));
            assert_eq!(timeout_ms, 90);
        }
        other => panic!("{:?}", other),
    }
    let (attempt, action) = attempt.advance(Event::Refused { elapsed_ms: 430 });
    assert_eq!(action, Action::Sleep { ms: 20 });
    let (attempt, action) = attempt.advance(Event::Slept { elapsed_ms: 450 });
    match action {
        Action::Connect { timeout_ms, .. } => assert_eq!(timeout_ms, 50),
        other => panic!("{:?}", other),
    }
    let (attempt, action) = attempt.advance(Event::Connected);
    assert_eq!(action, Action::Call { request: Request::Ping, timeout_ms: 90 });
    let (_, action) = attempt.advance(Event::Unanswered);
    assert_eq!(
        action,
        Action::Finish { result: Err(UnlockError::Verify(VerifyError::PeerUnreachable)) }
    );
    let (attempt, _) = try_unlock_within(timeouts, false, &user, &config);
    let (_, action) = attempt.advance(Event::Refused { elapsed_ms: 500 });
    assert_eq!(action, Action::Finish { result: Err(UnlockError::Timeout) });
}

#[test]
fn standard_attempt_is_the_attempt_within_standard_timeouts() {
    let user = UserIdentity { uid: 7, gid: 7, home: "/h".to_string(), name: "u".to_string() };
    let config = UserConfig::new("~/db".to_string());
    for immediate in [true, false] {
        assert_eq!(
            try_unlock(immediate, &user, &config),
            try_unlock_within(Timeouts::standard(), immediate, &user, &config)
        );
    }
}

fn connect_timeout(action: &Action) -> u64 {
    match action {
        Action::Connect { timeout_ms, .. } => *timeout_ms,
        other => panic!("{:?}", other),
    }
}

/// Carries out an attempt that waits for a bus that never answers, on a
/// clock on which each attempt to connect takes `attempt_ms`, or its timeout
/// if that is shorter. Gives the moment at which the attempt ends, and how
/// many times it tried.
fn wait_in_vain(timeouts: Timeouts, attempt_ms: u64) -> (u64, u32) {
    let user = UserIdentity { uid: 7, gid: 7, home: "/h".to_string(), name: "u".to_string() };
    let config = UserConfig::new("~/db".to_string());
    let (mut attempt, mut action) = try_unlock_within(timeouts, false, &user, &config);
    let mut now = 0;
    let mut attempts = 0;
    loop {
        let event = match action {
            Action::Connect { timeout_ms, .. } => {
                attempts += 1;
                now += attempt_ms.min(timeout_ms);
                Event::Refused { elapsed_ms: now }
            }
            Action::Sleep { ms } => {
                now += ms;
                Event::Slept { elapsed_ms: now }
            }
            Action::Finish { result } => {
                assert_eq!(result, Err(UnlockError::Timeout));
                return (now, attempts);
            }
            other => panic!("{:?}", other),
        };
        (attempt, action) = attempt.advance(event);
    }
}

#[test]
fn awaited_attempt_gives_up_after_thirty_seconds() {
    assert_eq!(wait_in_vain(Timeouts::standard(), 0), (30_000, 30));
}

#[test]
fn slow_attempts_do_not_stretch_the_waiting() {
    let standard = Timeouts::standard();
    for attempt_ms in [0, 1, 999, 1_000, 14_000, 29_999, 30_000, 1_000_000] {
        let (ended, _) = wait_in_vain(standard, attempt_ms);
        assert!(30_000 <= ended && ended < 31_000, "{attempt_ms} {ended}");
    }
    assert_eq!(wait_in_vain(standard, 29_999), (30_999, 1));
    assert_eq!(wait_in_vain(standard, 30_000), (30_000, 1));
    let short = Timeouts { overall_ms: 2_500, poll_ms: 1_000, call_ms: 400 };
    for attempt_ms in [0, 100, 400, 5_000] {
        let (ended, _) = wait_in_vain(short, attempt_ms);
        assert!(2_500 <= ended && ended < 3_500, "{attempt_ms} {ended}");
    }
}

#[test]
fn attempt_to_connect_gets_the_time_that_is_left() {
    let (attempt, first) = begin(false);
    assert_eq!(connect_timeout(&first), 30_000);
    let (attempt, _) = attempt.advance(Event::Refused { elapsed_ms: 5 });
    let (attempt, action) = attempt.advance(Event::Slept { elapsed_ms: 1_005 });
    assert_eq!(connect_timeout(&action), 28_995);
    let (attempt, _) = attempt.advance(Event::Refused { elapsed_ms: 29_500 });
    let (attempt, action) = attempt.advance(Event::Slept { elapsed_ms: 30_500 });
    assert_eq!(action, failed(UnlockError::Timeout));
    assert_eq!(attempt.stage(), Stage::Finished);
}

#[test]
fn waiting_without_time_ends_at_once() {
    let user = UserIdentity { uid: 7, gid: 7, home: "/h".to_string(), name: "u".to_string() };
    let config = UserConfig::new("~/db".to_string());
    let none = Timeouts { overall_ms: 0, poll_ms: 10, call_ms: 10 };
    let (attempt, first) = try_unlock_within(none, false, &user, &config);
    assert_eq!(first, failed(UnlockError::Timeout));
    assert_eq!(attempt.stage(), Stage::Finished);
    let (_, first) = try_unlock_within(none, true, &user, &config);
    assert_eq!(connect_timeout(&first), 10);
}
