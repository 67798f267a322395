//! One attempt to unlock the database: connect to the bus, test the peer,
//! send the call. What is done on the bus is done by the caller, who tells
//! what came of it; what that means and what to do next is decided here.

use crate::bus::{
    bus_path_of, connect_timeout, connect_timeout_of, session_bus, socket_address,
    standard_timeouts, wait_for_dbus, wait_step, ConnectError, Timeouts, WaitStep,
};
use crate::config::{database_path, resolve_path, UserConfig, UserIdentity};
use crate::peer::{accepts, verify, ExecRecord, VerifyError};
use crate::request::{Request, RequestView};
use nix::sys::socket::UnixAddr;
use vstd::prelude::*;

verus! {

/// Why an attempt to unlock failed.
#[derive(Clone, Copy, Debug, PartialEq, Eq, Structural)]
pub enum UnlockError {
    /// No connection to the bus was made.
    Connect(ConnectError),
    /// The bus did not appear in time.
    Timeout,
    /// The peer did not pass the test.
    Verify(VerifyError),
    /// The call to open the database could not be sent.
    Send,
}

/// How far an attempt has come.
#[derive(Clone, Copy, Debug, PartialEq, Eq, Structural)]
pub enum Stage {
    /// A connection to the bus is being made.
    Connecting,
    /// KeePassXC was asked whether it is there.
    Pinging,
    /// The bus was asked which process owns KeePassXC's name.
    FindingOwner,
    /// The service manager was asked for the unit of the owner `pid`.
    FindingUnit { pid: u32 },
    /// The service manager was asked how the unit of the owner `pid` was
    /// started.
    ReadingExecStart { pid: u32 },
    /// The call to open the database is being sent.
    Unlocking,
    /// The attempt is over.
    Finished,
}

/// What an answer holds, read as the call asks.
#[derive(Clone, Debug, PartialEq, Eq)]
pub enum Content {
    /// Nothing was to be read from it.
    Unread,
    /// The number of a process.
    Pid { pid: u32 },
    /// The path of the object that stands for a unit.
    Unit { object: String },
    /// How a unit was started, one record for each command.
    ExecStart { records: Vec<ExecRecord> },
    /// What was to be read is not there.
    Unreadable,
}

/// What happened to the last thing that the attempt asked for.
#[derive(Clone, Debug, PartialEq, Eq)]
pub enum Event {
    /// The connection was made.
    Connected,
    /// The connection was not made, `elapsed_ms` after the attempt began.
    Refused { elapsed_ms: u64 },
    /// The sleep is over, `elapsed_ms` after the attempt began.
    Slept { elapsed_ms: u64 },
    /// The call did not reach the connection: it could not be put together,
    /// or the connection did not take it.
    Unsent,
    /// The connection took a call to which no answer is waited for;
    /// `written` tells whether all of it was written out. Only a call that
    /// was written out was sent.
    Sent { written: bool },
    /// The connection took the call, but it was not written out, or no
    /// answer came in time.
    Unanswered,
    /// An answer came in time; `error` tells whether it is an error. An
    /// error is no answer to go on with, whatever it holds.
    Answered { error: bool, content: Content },
}

/// What the caller is to do next.
#[derive(Debug, PartialEq, Eq)]
pub enum Action {
    /// Connect to the bus at `address`.
    Connect { address: UnixAddr, timeout_ms: u64 },
    /// Sleep.
    Sleep { ms: u64 },
    /// Make the call.
    Call { request: Request, timeout_ms: u64 },
    /// Stop: the attempt ended with `result`.
    Finish { result: Result<(), UnlockError> },
    /// Nothing: the attempt was over before.
    Idle,
}

/// An action as a value.
pub enum ActionView {
    Connect { address: UnixAddr, timeout_ms: u64 },
    Sleep { ms: u64 },
    Call { request: RequestView, timeout_ms: u64 },
    Finish { result: Result<(), UnlockError> },
    Idle,
}

impl View for Action {
    type V = ActionView;

    open spec fn view(&self) -> ActionView {
        match self {
            Action::Connect { address, timeout_ms } => ActionView::Connect {
                address: *address,
                timeout_ms: *timeout_ms,
            },
            Action::Sleep { ms } => ActionView::Sleep { ms: *ms },
            Action::Call { request, timeout_ms } => ActionView::Call {
                request: request@,
                timeout_ms: *timeout_ms,
            },
            Action::Finish { result } => ActionView::Finish { result: *result },
            Action::Idle => ActionView::Idle,
        }
    }
}

/// An attempt to unlock the database of one user.
#[derive(Clone, Debug, PartialEq, Eq)]
pub struct UnlockAttempt {
    awaited: bool,
    timeouts: Timeouts,
    uid: u32,
    database_path: String,
    stage: Stage,
}

/// An attempt as a value.
pub struct AttemptView {
    /// Whether the attempt waits for the bus to appear.
    pub awaited: bool,
    pub timeouts: Timeouts,
    /// The number of the user whose bus is used.
    pub uid: u32,
    /// The database to open.
    pub database_path: Seq<char>,
    pub stage: Stage,
}

impl View for UnlockAttempt {
    type V = AttemptView;

    closed spec fn view(&self) -> AttemptView {
        AttemptView {
            awaited: self.awaited,
            timeouts: self.timeouts,
            uid: self.uid,
            database_path: self.database_path@,
            stage: self.stage,
        }
    }
}

impl AttemptView {
    /// The attempt as it begins, for the user with number `uid` and home
    /// directory `home`, who has configured the database path `template`.
    pub open spec fn begin_within(
        timeouts: Timeouts,
        immediate: bool,
        uid: u32,
        home: Seq<char>,
        template: Seq<char>,
    ) -> AttemptView {
        AttemptView {
            awaited: !immediate,
            timeouts,
            uid,
            database_path: resolve_path(home, template),
            stage: Stage::Connecting,
        }
    }

    /// The attempt as it begins, with the standard timeouts.
    pub open spec fn begin(
        immediate: bool,
        uid: u32,
        home: Seq<char>,
        template: Seq<char>,
    ) -> AttemptView {
        Self::begin_within(standard_timeouts(), immediate, uid, home, template)
    }

    /// The same attempt at another stage.
    pub open spec fn at(self, stage: Stage) -> AttemptView {
        AttemptView { stage, ..self }
    }

    /// Connecting to the user's bus within `timeout_ms`.
    pub open spec fn connect(self, timeout_ms: u64) -> ActionView {
        ActionView::Connect { address: socket_address(bus_path_of(self.uid)), timeout_ms }
    }

    /// What an attempt that is about to connect, `elapsed_ms` after it
    /// began, does next. One that does not wait for the bus connects within
    /// the time that a call may take. One that waits connects within the
    /// time that is left, and no longer than a call may take; when no time
    /// is left, it ends.
    pub open spec fn connect_at(self, elapsed_ms: u64) -> (AttemptView, ActionView) {
        if !self.awaited {
            (self, self.connect(self.timeouts.call_ms))
        } else {
            match connect_timeout_of(self.timeouts, elapsed_ms) {
                Some(timeout_ms) => (self, self.connect(timeout_ms)),
                None => self.fail(UnlockError::Timeout),
            }
        }
    }

    /// Making `request` and going on to `stage`.
    pub open spec fn call(self, stage: Stage, request: RequestView) -> (AttemptView, ActionView) {
        (self.at(stage), ActionView::Call { request, timeout_ms: self.timeouts.call_ms })
    }

    /// Ending with `error`.
    pub open spec fn fail(self, error: UnlockError) -> (AttemptView, ActionView) {
        (self.at(Stage::Finished), ActionView::Finish { result: Err(error) })
    }

    /// The attempt after `event`, and what is to be done next.
    pub open spec fn step(self, event: Event) -> (AttemptView, ActionView) {
        match self.stage {
            Stage::Connecting => match event {
                Event::Connected => self.call(Stage::Pinging, RequestView::Ping),
                Event::Refused { elapsed_ms } => if !self.awaited {
                    self.fail(UnlockError::Connect(ConnectError::Refused))
                } else {
                    match wait_step(self.timeouts, elapsed_ms) {
                        WaitStep::Retry { sleep_ms } => (self, ActionView::Sleep { ms: sleep_ms }),
                        WaitStep::GiveUp => self.fail(UnlockError::Timeout),
                    }
                },
                Event::Slept { elapsed_ms } => if self.awaited {
                    self.connect_at(elapsed_ms)
                } else {
                    self.fail(UnlockError::Connect(ConnectError::Refused))
                },
                _ => self.fail(UnlockError::Connect(ConnectError::Refused)),
            },
            Stage::Pinging => match event {
                Event::Answered { error: false, .. } => self.call(
                    Stage::FindingOwner,
                    RequestView::OwnerPid,
                ),
                _ => self.fail(UnlockError::Verify(VerifyError::PeerUnreachable)),
            },
            Stage::FindingOwner => match event {
                Event::Answered { error: false, content: Content::Pid { pid } } => self.call(
                    Stage::FindingUnit { pid },
                    RequestView::UnitByPid { pid },
                ),
                _ => self.fail(UnlockError::Verify(VerifyError::UntrustedPeer)),
            },
            Stage::FindingUnit { pid } => match event {
                Event::Answered { error: false, content: Content::Unit { object } } => self.call(
                    Stage::ReadingExecStart { pid },
                    RequestView::ExecStart { unit: object@ },
                ),
                _ => self.fail(UnlockError::Verify(VerifyError::UntrustedPeer)),
            },
            Stage::ReadingExecStart { pid } => match event {
                Event::Answered {
                    error: false,
                    content: Content::ExecStart { records },
                } => if accepts(pid, records@) {
                    self.call(
                        Stage::Unlocking,
                        RequestView::OpenDatabase { path: self.database_path },
                    )
                } else {
                    self.fail(UnlockError::Verify(VerifyError::UntrustedPeer))
                },
                _ => self.fail(UnlockError::Verify(VerifyError::UntrustedPeer)),
            },
            Stage::Unlocking => match event {
                Event::Sent { written: true } => (
                    self.at(Stage::Finished),
                    ActionView::Finish { result: Ok(()) },
                ),
                _ => self.fail(UnlockError::Send),
            },
            Stage::Finished => (self, ActionView::Idle),
        }
    }
}

impl AttemptView {
    /// The attempt after `events`, taken in order.
    pub open spec fn after(self, events: Seq<Event>) -> AttemptView
        decreases events.len(),
    {
        if events.len() == 0 {
            self
        } else {
            self.after(events.drop_last()).step(events.last()).0
        }
    }

    /// What is to be done when event number `k` of `events` has come in.
    pub open spec fn action_at(self, events: Seq<Event>, k: int) -> ActionView {
        self.after(events.take(k)).step(events[k]).1
    }
}

/// The attempt after the first `k + 1` events is the attempt after the
/// first `k`, one step on.
proof fn lemma_after_one_more(start: AttemptView, events: Seq<Event>, k: int)
    requires
        0 <= k < events.len(),
    ensures
        start.after(events.take(k + 1)) == start.after(events.take(k)).step(events[k]).0,
{
    assert(events.take(k + 1).drop_last() == events.take(k));
    assert(events.take(k + 1).last() == events[k]);
}

/// Whatever comes in, an attempt stays the attempt it was: only its stage
/// changes.
pub proof fn law_only_the_stage_changes(start: AttemptView, events: Seq<Event>)
    ensures
        start.after(events).at(start.stage) == start,
    decreases events.len(),
{
    if events.len() > 0 {
        law_only_the_stage_changes(start, events.drop_last());
    }
}

/// The call that opens the database is made only in answer to records that
/// vouch for the owner of KeePassXC's name, and those are the last of five
/// events with nothing in between: the connection was made, the ping was
/// answered, the bus named the owner, the service manager named the owner's
/// unit, and it told how that unit was started, each without an error. So
/// whatever
/// comes in, no database is opened through a peer that was not tested on the
/// same connection; and the database that is opened is the one that the
/// attempt began with.
pub proof fn law_unlock_only_after_verification(start: AttemptView, events: Seq<Event>, k: int)
    requires
        start.stage == Stage::Connecting,
        0 <= k < events.len(),
        start.action_at(events, k) matches ActionView::Call { request, .. }
            && request is OpenDatabase,
    ensures
        k >= 4,
        events[k - 4] is Connected,
        events[k - 3] matches Event::Answered { error: false, .. },
        events[k - 2] matches Event::Answered { error: false, content: Content::Pid { pid } }
            && events[k - 1] matches Event::Answered { error: false, content: Content::Unit { .. } }
            && events[k] matches Event::Answered {
            error: false,
            content: Content::ExecStart { records },
        } && accepts(pid, records@),
        start.action_at(events, k) == (ActionView::Call {
            request: RequestView::OpenDatabase { path: start.database_path },
            timeout_ms: start.timeouts.call_ms,
        }),
{
    law_only_the_stage_changes(start, events.take(k));
    let reading = start.after(events.take(k));
    assert(reading.stage is ReadingExecStart);
    assert(events.take(0) == Seq::<Event>::empty());
    assert(k >= 1);
    lemma_after_one_more(start, events, k - 1);
    let finding_unit = start.after(events.take(k - 1));
    assert(finding_unit.stage is FindingUnit);
    assert(k >= 2);
    lemma_after_one_more(start, events, k - 2);
    let finding_owner = start.after(events.take(k - 2));
    assert(finding_owner.stage is FindingOwner);
    assert(k >= 3);
    lemma_after_one_more(start, events, k - 3);
    let pinging = start.after(events.take(k - 3));
    assert(pinging.stage is Pinging);
    assert(k >= 4);
    lemma_after_one_more(start, events, k - 4);
}

impl Stage {
    /// How many stages lie behind.
    pub open spec fn rank(self) -> nat {
        match self {
            Stage::Connecting => 0,
            Stage::Pinging => 1,
            Stage::FindingOwner => 2,
            Stage::FindingUnit { .. } => 3,
            Stage::ReadingExecStart { .. } => 4,
            Stage::Unlocking => 5,
            Stage::Finished => 6,
        }
    }
}

/// An attempt never goes back to an earlier stage.
proof fn lemma_never_goes_back(start: AttemptView, events: Seq<Event>, i: int, j: int)
    requires
        0 <= i <= j <= events.len(),
    ensures
        start.after(events.take(i)).stage.rank() <= start.after(events.take(j)).stage.rank(),
    decreases j - i,
{
    if i < j {
        lemma_never_goes_back(start, events, i, j - 1);
        lemma_after_one_more(start, events, j - 1);
    }
}

/// Whatever comes in, one attempt asks at most once for the database to be
/// opened: the credential goes out at most once.
pub proof fn law_database_opened_at_most_once(
    start: AttemptView,
    events: Seq<Event>,
    i: int,
    j: int,
)
    requires
        0 <= i <= j < events.len(),
        start.action_at(events, i) matches ActionView::Call { request, .. }
            && request is OpenDatabase,
        start.action_at(events, j) matches ActionView::Call { request, .. }
            && request is OpenDatabase,
    ensures
        i == j,
{
    if i < j {
        lemma_after_one_more(start, events, i);
        lemma_never_goes_back(start, events, i + 1, j);
    }
}

/// An answer that is an error ends the attempt, whatever it holds and
/// whichever call it answers: the peer is not tested further, and no
/// database is opened.
pub proof fn law_error_ends_the_attempt(attempt: AttemptView, content: Content)
    requires
        attempt.stage != Stage::Finished,
    ensures
        attempt.step(Event::Answered { error: true, content }).0.stage == Stage::Finished,
        attempt.step(Event::Answered { error: true, content }).1 matches ActionView::Finish {
            result: Err(_),
        },
{
}

/// An attempt that is over stays over and asks for nothing more.
pub proof fn law_finished_is_final(attempt: AttemptView, event: Event)
    requires
        attempt.stage == Stage::Finished,
    ensures
        attempt.step(event) == (attempt, ActionView::Idle),
{
}

/// Begins an attempt to unlock the database that `user_config` names for
/// `user`. With `immediate` the bus is expected to be there and one failure
/// to connect ends the attempt; without it the attempt waits for the bus.
/// The timeouts are the standard ones.
pub fn try_unlock(immediate: bool, user: &UserIdentity, user_config: &UserConfig) -> (r: (
    UnlockAttempt,
    Action,
))
    ensures
        (r.0@, r.1@) == AttemptView::begin(
            immediate,
            user.uid,
            user.home@,
            user_config@,
        ).connect_at(0),
{
    try_unlock_within(Timeouts::standard(), immediate, user, user_config)
}

/// Begins an attempt as `try_unlock` does, with timeouts of the caller's
/// choice.
pub fn try_unlock_within(
    timeouts: Timeouts,
    immediate: bool,
    user: &UserIdentity,
    user_config: &UserConfig,
) -> (r: (UnlockAttempt, Action))
    ensures
        (r.0@, r.1@) == AttemptView::begin_within(
            timeouts,
            immediate,
            user.uid,
            user.home@,
            user_config@,
        ).connect_at(0),
{
    let attempt = UnlockAttempt {
        awaited: !immediate,
        timeouts,
        uid: user.uid,
        database_path: database_path(user, user_config),
        stage: Stage::Connecting,
    };
    attempt.connect_at(0)
}

impl UnlockAttempt {
    /// How far the attempt has come.
    pub fn stage(&self) -> (stage: Stage)
        ensures
            stage == self@.stage,
    {
        self.stage
    }

    fn connect(&self, timeout_ms: u64) -> (action: Action)
        ensures
            action@ == self@.connect(timeout_ms),
    {
        match session_bus(self.uid) {
            Ok(address) => Action::Connect { address, timeout_ms },
            Err(error) => Action::Finish { result: Err(UnlockError::Connect(error)) },
        }
    }

    fn connect_at(self, elapsed_ms: u64) -> (r: (UnlockAttempt, Action))
        ensures
            (r.0@, r.1@) == self@.connect_at(elapsed_ms),
    {
        if !self.awaited {
            let action = self.connect(self.timeouts.call_ms);
            (self, action)
        } else {
            match connect_timeout(&self.timeouts, elapsed_ms) {
                Some(timeout_ms) => {
                    let action = self.connect(timeout_ms);
                    (self, action)
                },
                None => self.fail(UnlockError::Timeout),
            }
        }
    }

    fn call(self, stage: Stage, request: Request) -> (r: (UnlockAttempt, Action))
        ensures
            (r.0@, r.1@) == self@.call(stage, request@),
    {
        let timeout_ms = self.timeouts.call_ms;
        (UnlockAttempt { stage, ..self }, Action::Call { request, timeout_ms })
    }

    fn fail(self, error: UnlockError) -> (r: (UnlockAttempt, Action))
        ensures
            (r.0@, r.1@) == self@.fail(error),
    {
        (UnlockAttempt { stage: Stage::Finished, ..self }, Action::Finish { result: Err(error) })
    }

    /// Takes in what happened and says what to do next.
    pub fn advance(self, event: Event) -> (r: (UnlockAttempt, Action))
        ensures
            (r.0@, r.1@) == self@.step(event),
    {
        match self.stage {
            Stage::Connecting => match event {
                Event::Connected => self.call(Stage::Pinging, Request::Ping),
                Event::Refused { elapsed_ms } => {
                    if !self.awaited {
                        self.fail(UnlockError::Connect(ConnectError::Refused))
                    } else {
                        match wait_for_dbus(&self.timeouts, elapsed_ms) {
                            WaitStep::Retry { sleep_ms } => (self, Action::Sleep { ms: sleep_ms }),
                            WaitStep::GiveUp => self.fail(UnlockError::Timeout),
                        }
                    }
                },
                Event::Slept { elapsed_ms } => {
                    if self.awaited {
                        self.connect_at(elapsed_ms)
                    } else {
                        self.fail(UnlockError::Connect(ConnectError::Refused))
                    }
                },
                _ => self.fail(UnlockError::Connect(ConnectError::Refused)),
            },
            Stage::Pinging => match event {
                Event::Answered { error: false, .. } => self.call(
                    Stage::FindingOwner,
                    Request::OwnerPid,
                ),
                _ => self.fail(UnlockError::Verify(VerifyError::PeerUnreachable)),
            },
            Stage::FindingOwner => match event {
                Event::Answered { error: false, content: Content::Pid { pid } } => self.call(
                    Stage::FindingUnit { pid },
                    Request::UnitByPid { pid },
                ),
                _ => self.fail(UnlockError::Verify(VerifyError::UntrustedPeer)),
            },
            Stage::FindingUnit { pid } => match event {
                Event::Answered { error: false, content: Content::Unit { object } } => self.call(
                    Stage::ReadingExecStart { pid },
                    Request::ExecStart { unit: object },
                ),
                _ => self.fail(UnlockError::Verify(VerifyError::UntrustedPeer)),
            },
            Stage::ReadingExecStart { pid } => match event {
                Event::Answered {
                    error: false,
                    content: Content::ExecStart { records },
                } => match verify(pid, &records) {
                    Ok(_) => {
                        let path = self.database_path.clone();
                        self.call(Stage::Unlocking, Request::OpenDatabase { path })
                    },
                    Err(error) => self.fail(UnlockError::Verify(error)),
                },
                _ => self.fail(UnlockError::Verify(VerifyError::UntrustedPeer)),
            },
            Stage::Unlocking => match event {
                Event::Sent { written: true } => (
                    UnlockAttempt { stage: Stage::Finished, ..self },
                    Action::Finish { result: Ok(()) },
                ),
                _ => self.fail(UnlockError::Send),
            },
            Stage::Finished => (self, Action::Idle),
        }
    }
}

} // verus!
