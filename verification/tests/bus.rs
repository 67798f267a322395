use pam_keepassxc::bus::{
    bus_path, connect_timeout, session_bus, user_session_bus, wait_for_dbus, Timeouts, WaitStep,
};
use pam_keepassxc::config::UserIdentity;
use std::path::Path;

fn user(uid: u32) -> UserIdentity {
    UserIdentity { uid, gid: uid, home: "/home/alice".to_string(), name: "alice".to_string() }
}

#[test]
fn bus_path_holds_the_uid() {
    assert_eq!(bus_path(1000), "/run/user/1000/bus");
    assert_eq!(bus_path(0), "/run/user/0/bus");
    assert_eq!(bus_path(u32::MAX), "/run/user/4294967295/bus");
}

#[test]
fn users_do_not_share_a_bus() {
    let uids = [0, 1, 10, 100, 101, 1000, 1001, 10000, u32::MAX];
    for one in uids {
        for other in uids {
            assert_eq!(bus_path(one) == bus_path(other), one == other);
        }
    }
}

#[test]
fn bus_address_names_the_bus_path() {
    let address = user_session_bus(&user(1000)).unwrap();
    assert_eq!(address.path(), Some(Path::new("/run/user/1000/bus")));
    let address = session_bus(u32::MAX).unwrap();
    assert_eq!(address.path(), Some(Path::new("/run/user/4294967295/bus")));
}

#[test]
fn standard_timeouts() {
    let timeouts = Timeouts::standard();
    assert_eq!(timeouts, Timeouts { overall_ms: 30_000, poll_ms: 1_000, call_ms: 30_000 });
}

#[test]
fn retries_while_time_is_left() {
    let timeouts = Timeouts::standard();
    assert_eq!(wait_for_dbus(&timeouts, 0), WaitStep::Retry { sleep_ms: 1_000 });
    assert_eq!(wait_for_dbus(&timeouts, 29_999), WaitStep::Retry { sleep_ms: 1_000 });
}

#[test]
fn gives_up_when_time_is_up() {
    let timeouts = Timeouts::standard();
    assert_eq!(wait_for_dbus(&timeouts, 30_000), WaitStep::GiveUp);
    assert_eq!(wait_for_dbus(&timeouts, 30_001), WaitStep::GiveUp);
    assert_eq!(wait_for_dbus(&timeouts, u64::MAX), WaitStep::GiveUp);
}

#[test]
fn attempt_gets_the_time_left_but_no_more_than_a_call() {
    let timeouts = Timeouts::standard();
    assert_eq!(connect_timeout(&timeouts, 0), Some(30_000));
    assert_eq!(connect_timeout(&timeouts, 1), Some(29_999));
    assert_eq!(connect_timeout(&timeouts, 29_999), Some(1));
    assert_eq!(connect_timeout(&timeouts, 30_000), None);
    assert_eq!(connect_timeout(&timeouts, u64::MAX), None);
    let timeouts = Timeouts { overall_ms: 2_500, poll_ms: 1_000, call_ms: 400 };
    assert_eq!(connect_timeout(&timeouts, 0), Some(400));
    assert_eq!(connect_timeout(&timeouts, 2_100), Some(400));
    assert_eq!(connect_timeout(&timeouts, 2_101), Some(399));
    assert_eq!(connect_timeout(&timeouts, 2_500), None);
}

/// The moment at which the waiting ends if the bus never answers and each
/// attempt to connect takes `attempt_ms`, or its timeout if that is shorter.
fn gives_up_at(timeouts: &Timeouts, attempt_ms: u64) -> u64 {
    let mut now = 0;
    loop {
        match connect_timeout(timeouts, now) {
            None => return now,
            Some(timeout) => now += attempt_ms.min(timeout),
        }
        match wait_for_dbus(timeouts, now) {
            WaitStep::Retry { sleep_ms } => now += sleep_ms,
            WaitStep::GiveUp => return now,
        }
    }
}

#[test]
fn unreachable_bus_times_out_after_thirty_seconds() {
    for attempt_ms in [0, 1, 500, 1_000, 29_999, 30_000, 90_000] {
        let at = gives_up_at(&Timeouts::standard(), attempt_ms);
        assert!(30_000 <= at && at < 31_000, "{attempt_ms} {at}");
    }
    assert_eq!(gives_up_at(&Timeouts::standard(), 0), 30_000);
    assert_eq!(gives_up_at(&Timeouts::standard(), 29_999), 30_999);
}

#[test]
fn timeout_comes_less_than_one_pause_late() {
    let timeouts = Timeouts { overall_ms: 2_500, poll_ms: 1_000, call_ms: 100 };
    assert_eq!(gives_up_at(&timeouts, 0), 3_000);
    assert_eq!(gives_up_at(&timeouts, 70), 3_210);
    assert_eq!(gives_up_at(&timeouts, 5_000), 3_300);
    let timeouts = Timeouts { overall_ms: 0, poll_ms: 7, call_ms: 100 };
    assert_eq!(gives_up_at(&timeouts, 0), 0);
    let timeouts = Timeouts { overall_ms: 1, poll_ms: 7, call_ms: 100 };
    assert_eq!(gives_up_at(&timeouts, 0), 7);
    let timeouts = Timeouts { overall_ms: 10, poll_ms: 0, call_ms: 3 };
    assert_eq!(gives_up_at(&timeouts, 3), 10);
}

#[test]
fn bus_path_agrees_with_the_standard_library() {
    let mut uid: u32 = 0;
    loop {
        assert_eq!(bus_path(uid), format!("/run/user/{}/bus", uid));
        assert_eq!(bus_path(u32::MAX - uid), format!("/run/user/{}/bus", u32::MAX - uid));
        if uid > 400_000_000 {
            break;
        }
        uid = uid * 3 + 1;
    }
    for uid in 0..2_000 {
        assert_eq!(bus_path(uid), format!("/run/user/{}/bus", uid));
    }
}
