//! The user's private session bus: its address, and how long to wait for it.

use crate::config::UserIdentity;
use crate::text::{
    decimal, lemma_decimal_is_read_back, lemma_decimal_u32, push_decimal, push_str, string_of,
};
use nix::errno::Errno;
use nix::sys::socket::UnixAddr;
use vstd::prelude::*;
use vstd::string::StringSliceAdditionalSpecFns;

verus! {

/// `nix::sys::socket::UnixAddr`, the address of a Unix socket.
#[verifier::external_type_specification]
#[verifier::external_body]
pub struct ExUnixAddr(UnixAddr);

/// `nix::errno::Errno`, the error numbers of the operating system.
#[verifier::external_type_specification]
#[verifier::external_body]
pub struct ExErrno(Errno);

/// The address that `UnixAddr::new` makes of the socket file at `path`.
pub uninterp spec fn socket_address(path: Seq<char>) -> UnixAddr;

/// `UnixAddr::new` of nix. It refuses a path that holds a NUL and one whose
/// bytes do not fit the address, which has room for at least 104 of them,
/// the closing NUL included; any other path it accepts. What it returns
/// depends on the path alone.
#[verifier::external_body]
fn unix_addr(path: &str) -> (r: Result<UnixAddr, Errno>)
    ensures
        !path@.contains('\0') && path.spec_bytes().len() < 104 ==> r is Ok,
        r matches Ok(address) ==> address == socket_address(path@),
{
    UnixAddr::new(path)
}

/// Why no connection to the bus was made.
#[derive(Clone, Copy, Debug, PartialEq, Eq, Structural)]
pub enum ConnectError {
    /// The path of the bus does not make an address.
    Address,
    /// Nothing answers at the address.
    Refused,
}

/// The path of the session bus of the user with number `uid`.
pub open spec fn bus_path_of(uid: u32) -> Seq<char> {
    "/run/user/"@ + decimal(uid as nat) + "/bus"@
}

/// The bus path is short, ASCII, and holds no NUL.
pub proof fn lemma_bus_path_is_plain(uid: u32)
    ensures
        bus_path_of(uid).len() <= 24,
        forall|i: int|
            0 <= i < bus_path_of(uid).len() ==> '\0' < #[trigger] bus_path_of(uid)[i] <= '\u{7f}',
{
    reveal_strlit("/run/user/");
    reveal_strlit("/bus");
    lemma_decimal_u32(uid as nat);
    let digits = decimal(uid as nat);
    let path = bus_path_of(uid);
    assert forall|i: int| 0 <= i < path.len() implies '\0' < #[trigger] path[i] <= '\u{7f}' by {
        if 10 <= i < 10 + digits.len() {
            assert(path[i] == digits[i - 10]);
        }
    }
}

/// Each user has a bus of their own: the paths of two users differ.
pub proof fn law_each_user_has_their_own_bus(one: u32, other: u32)
    requires
        one != other,
    ensures
        bus_path_of(one) != bus_path_of(other),
{
    reveal_strlit("/run/user/");
    reveal_strlit("/bus");
    lemma_decimal_is_read_back(one as nat);
    lemma_decimal_is_read_back(other as nat);
    let left = bus_path_of(one);
    let right = bus_path_of(other);
    if left == right {
        assert(decimal(one as nat) =~= left.subrange(10, left.len() - 4));
        assert(decimal(other as nat) =~= right.subrange(10, right.len() - 4));
    }
}

/// The path of the session bus of the user with number `uid`.
pub fn bus_path(uid: u32) -> (path: String)
    ensures
        path@ == bus_path_of(uid),
{
    let mut out: Vec<char> = Vec::new();
    push_str(&mut out, "/run/user/");
    push_decimal(&mut out, uid);
    push_str(&mut out, "/bus");
    string_of(&out)
}

/// The address of the session bus of the user with number `uid`. The path
/// of a bus always makes an address.
pub fn session_bus(uid: u32) -> (r: Result<UnixAddr, ConnectError>)
    ensures
        r == Ok::<UnixAddr, ConnectError>(socket_address(bus_path_of(uid))),
{
    let path = bus_path(uid);
    let text = path.as_str();
    proof {
        lemma_bus_path_is_plain(uid);
        vstd::string::is_ascii_spec_bytes(text);
    }
    match unix_addr(text) {
        Ok(address) => Ok(address),
        Err(_) => Err(ConnectError::Address),
    }
}

/// The address of the user's session bus.
pub fn user_session_bus(user: &UserIdentity) -> (r: Result<UnixAddr, ConnectError>)
    ensures
        r == Ok::<UnixAddr, ConnectError>(socket_address(bus_path_of(user.uid))),
{
    session_bus(user.uid)
}

/// How long things may take, in milliseconds.
#[derive(Clone, Copy, Debug, PartialEq, Eq, Structural)]
pub struct Timeouts {
    /// How long to wait for the bus before giving up.
    pub overall_ms: u64,
    /// How long to sleep between two attempts to connect.
    pub poll_ms: u64,
    /// How long one attempt to connect, or one call, may take.
    pub call_ms: u64,
}

/// What to do when an attempt to connect has failed.
#[derive(Clone, Copy, Debug, PartialEq, Eq, Structural)]
pub enum WaitStep {
    /// Sleep, then try again.
    Retry { sleep_ms: u64 },
    /// The time is up.
    GiveUp,
}

/// What to do when an attempt to connect has failed `elapsed_ms` after the
/// waiting began: give up once the whole time has passed, else try again
/// after a pause.
pub open spec fn wait_step(timeouts: Timeouts, elapsed_ms: u64) -> WaitStep {
    if elapsed_ms >= timeouts.overall_ms {
        WaitStep::GiveUp
    } else {
        WaitStep::Retry { sleep_ms: timeouts.poll_ms }
    }
}

/// How much of the whole time is left at the moment `now`.
pub open spec fn time_left(timeouts: Timeouts, now: int) -> nat {
    if now < timeouts.overall_ms {
        (timeouts.overall_ms - now) as nat
    } else {
        0
    }
}

/// How long an attempt to connect may take that begins `elapsed_ms` after
/// the waiting began: the time that is left, but no longer than one call
/// may take. When no time is left, no attempt is made.
pub open spec fn connect_timeout_of(timeouts: Timeouts, elapsed_ms: u64) -> Option<u64> {
    if elapsed_ms >= timeouts.overall_ms {
        None
    } else if timeouts.overall_ms - elapsed_ms < timeouts.call_ms {
        Some((timeouts.overall_ms - elapsed_ms) as u64)
    } else {
        Some(timeouts.call_ms)
    }
}

/// When the waiting ends if the bus never answers and each attempt to
/// connect fails after `attempt_ms`, or when its timeout is over if that is
/// sooner. An attempt is due at the moment `now`; as long as another is to
/// follow, it is due one pause after the last has failed.
pub open spec fn gives_up_at(timeouts: Timeouts, attempt_ms: nat, now: int) -> int
    decreases time_left(timeouts, now),
{
    if 0 <= now <= u64::MAX {
        match connect_timeout_of(timeouts, now as u64) {
            None => now,
            Some(timeout) => {
                let took: int = if attempt_ms < timeout {
                    attempt_ms as int
                } else {
                    timeout as int
                };
                let failed = now + took;
                match wait_step(timeouts, failed as u64) {
                    WaitStep::GiveUp => failed,
                    WaitStep::Retry { sleep_ms } => if sleep_ms + took > 0 {
                        gives_up_at(timeouts, attempt_ms, failed + sleep_ms)
                    } else {
                        failed
                    },
                }
            },
        }
    } else {
        now
    }
}

/// Half a minute for the bus to appear and for each call, a second between
/// two attempts to connect.
pub open spec fn standard_timeouts() -> Timeouts {
    Timeouts { overall_ms: 30_000, poll_ms: 1_000, call_ms: 30_000 }
}

impl Timeouts {
    /// Half a minute for the bus to appear and for each call, a second
    /// between two attempts to connect.
    pub fn standard() -> (timeouts: Timeouts)
        ensures
            timeouts == standard_timeouts(),
    {
        Timeouts { overall_ms: 30_000, poll_ms: 1_000, call_ms: 30_000 }
    }
}

/// What to do when an attempt to connect has failed `elapsed_ms` after the
/// waiting began.
pub fn wait_for_dbus(timeouts: &Timeouts, elapsed_ms: u64) -> (step: WaitStep)
    ensures
        step == wait_step(*timeouts, elapsed_ms),
{
    if elapsed_ms >= timeouts.overall_ms {
        WaitStep::GiveUp
    } else {
        WaitStep::Retry { sleep_ms: timeouts.poll_ms }
    }
}

/// How long an attempt to connect may take that begins `elapsed_ms` after
/// the waiting began, if one is to be made at all.
pub fn connect_timeout(timeouts: &Timeouts, elapsed_ms: u64) -> (timeout: Option<u64>)
    ensures
        timeout == connect_timeout_of(*timeouts, elapsed_ms),
{
    if elapsed_ms >= timeouts.overall_ms {
        None
    } else if timeouts.overall_ms - elapsed_ms < timeouts.call_ms {
        Some(timeouts.overall_ms - elapsed_ms)
    } else {
        Some(timeouts.call_ms)
    }
}

/// Waiting goes on exactly as long as the time is not up: every moment
/// at which another attempt is made lies before the end of the whole time.
pub proof fn law_retry_only_in_time(timeouts: Timeouts, elapsed_ms: u64)
    ensures
        wait_step(timeouts, elapsed_ms) is Retry <==> elapsed_ms < timeouts.overall_ms,
        connect_timeout_of(timeouts, elapsed_ms) is Some <==> elapsed_ms < timeouts.overall_ms,
{
}

/// No attempt to connect is given more time than is left of the whole
/// time, nor more than one call may take.
pub proof fn law_attempt_ends_in_time(timeouts: Timeouts, elapsed_ms: u64)
    ensures
        connect_timeout_of(timeouts, elapsed_ms) matches Some(timeout) ==> elapsed_ms + timeout
            <= timeouts.overall_ms && timeout <= timeouts.call_ms,
{
}

/// If the bus never answers, the waiting ends when the whole time has
/// passed and no more than one pause later, however long the attempts to
/// connect take: with a pause that is not zero, less than one pause later.
/// This is said of a clock that moves, on which a pause or an attempt takes
/// time.
pub proof fn law_timeout_is_bounded(timeouts: Timeouts, attempt_ms: nat)
    requires
        timeouts.poll_ms > 0 || (attempt_ms > 0 && timeouts.call_ms > 0),
    ensures
        timeouts.overall_ms <= gives_up_at(timeouts, attempt_ms, 0) <= timeouts.overall_ms
            + timeouts.poll_ms,
        timeouts.poll_ms > 0 ==> gives_up_at(timeouts, attempt_ms, 0) < timeouts.overall_ms
            + timeouts.poll_ms,
{
    lemma_gives_up_in_time(timeouts, attempt_ms, 0);
}

proof fn lemma_gives_up_in_time(timeouts: Timeouts, attempt_ms: nat, now: int)
    requires
        timeouts.poll_ms > 0 || (attempt_ms > 0 && timeouts.call_ms > 0),
        0 <= now,
    ensures
        now < timeouts.overall_ms ==> timeouts.overall_ms <= gives_up_at(
            timeouts,
            attempt_ms,
            now,
        ) <= timeouts.overall_ms + timeouts.poll_ms,
        now < timeouts.overall_ms && timeouts.poll_ms > 0 ==> gives_up_at(
            timeouts,
            attempt_ms,
            now,
        ) < timeouts.overall_ms + timeouts.poll_ms,
        now >= timeouts.overall_ms ==> gives_up_at(timeouts, attempt_ms, now) == now,
    decreases time_left(timeouts, now),
{
    if now < timeouts.overall_ms {
        let timeout = connect_timeout_of(timeouts, now as u64)->0;
        let took: int = if attempt_ms < timeout { attempt_ms as int } else { timeout as int };
        let failed = now + took;
        if failed < timeouts.overall_ms {
            lemma_gives_up_in_time(timeouts, attempt_ms, failed + timeouts.poll_ms);
        }
    }
}

} // verus!
