//! Detaching a worker from the login: fork twice and let the first child
//! end, so that the second is nobody's child to wait for. The caller forks,
//! waits and closes; what to do next is decided here.

use vstd::prelude::*;

verus! {

/// What the process is after detaching.
#[derive(Clone, Copy, Debug, PartialEq, Eq, Structural)]
pub enum Role {
    /// The process that asked: its child, now reaped, was `child`.
    Parent { child: i32 },
    /// The detached worker.
    Worker,
}

/// No process could be made.
#[derive(Clone, Copy, Debug, PartialEq, Eq, Structural)]
pub struct ForkError;

/// How a fork ended, seen from the process that reports it.
#[derive(Clone, Copy, Debug, PartialEq, Eq, Structural)]
pub enum Forked {
    /// This is the process that forked, and `child` is the new one.
    Parent { child: i32 },
    /// This is the new process.
    Child,
    /// There is no new process.
    Failed,
}

/// How a wait for a child ended.
#[derive(Clone, Copy, Debug, PartialEq, Eq, Structural)]
pub enum Waited {
    /// The child has ended and is reaped.
    Ended,
    /// There is no such child to wait for.
    NoChild,
    /// The wait was cut short; the child may still be there.
    Interrupted,
}

/// What happened to the last thing that was asked for.
#[derive(Clone, Copy, Debug, PartialEq, Eq, Structural)]
pub enum DetachEvent {
    /// A fork ended.
    Forked(Forked),
    /// A wait for a child ended.
    Waited(Waited),
    /// Anything else was tried; whether it succeeded makes no difference.
    Done,
}

/// What the caller is to do next.
#[derive(Clone, Copy, Debug, PartialEq, Eq)]
pub enum DetachAction {
    /// Fork.
    Fork,
    /// Wait until the process `child` has ended.
    Reap { child: i32 },
    /// Become the leader of a new session.
    LeaveSession,
    /// Close the file descriptor.
    Close { descriptor: i32 },
    /// End this process with the status `code`.
    Exit { code: i32 },
    /// Detaching is over for this process.
    Return { result: Result<Role, ForkError> },
    /// Nothing: detaching was over before.
    Idle,
}

/// How far detaching has come, each process for itself.
#[derive(Clone, Copy, Debug, PartialEq, Eq, Structural)]
pub enum Detach {
    /// The first fork was asked for.
    FirstFork,
    /// In the parent: it waits for the first child.
    Reaping { child: i32 },
    /// In the first child: it leaves the session of the login.
    LeavingSession,
    /// In the first child: it closes the descriptor.
    Closing { descriptor: i32 },
    /// In the first child: the second fork was asked for.
    SecondFork,
    /// In the first child: it ends.
    Exiting,
    /// Detaching is over.
    Finished,
}

impl Detach {
    /// Detaching after `event`, and what is to be done next.
    ///
    /// The parent waits for its child until the child is reaped, or there is
    /// none to wait for, and returns. The first child leaves the
    /// session, closes its standard input, output and error, forks again and
    /// ends at once, whatever that fork gave it: so the second child is
    /// nobody's to wait for. The second child is the worker.
    pub open spec fn step(self, event: DetachEvent) -> (Detach, DetachAction) {
        match self {
            Detach::FirstFork => match event {
                DetachEvent::Forked(Forked::Parent { child }) => (
                    Detach::Reaping { child },
                    DetachAction::Reap { child },
                ),
                DetachEvent::Forked(Forked::Child) => (
                    Detach::LeavingSession,
                    DetachAction::LeaveSession,
                ),
                _ => (Detach::Finished, DetachAction::Return { result: Err(ForkError) }),
            },
            Detach::Reaping { child } => match event {
                DetachEvent::Waited(Waited::Ended) | DetachEvent::Waited(Waited::NoChild) => (
                    Detach::Finished,
                    DetachAction::Return { result: Ok(Role::Parent { child }) },
                ),
                _ => (Detach::Reaping { child }, DetachAction::Reap { child }),
            },
            Detach::LeavingSession => (
                Detach::Closing { descriptor: 0 },
                DetachAction::Close { descriptor: 0 },
            ),
            Detach::Closing { descriptor } => if 0 <= descriptor < 2 {
                (
                    Detach::Closing { descriptor: (descriptor + 1) as i32 },
                    DetachAction::Close { descriptor: (descriptor + 1) as i32 },
                )
            } else {
                (Detach::SecondFork, DetachAction::Fork)
            },
            Detach::SecondFork => match event {
                DetachEvent::Forked(Forked::Child) => (
                    Detach::Finished,
                    DetachAction::Return { result: Ok(Role::Worker) },
                ),
                _ => (Detach::Exiting, DetachAction::Exit { code: 0 }),
            },
            Detach::Exiting => (Detach::Exiting, DetachAction::Exit { code: 0 }),
            Detach::Finished => (Detach::Finished, DetachAction::Idle),
        }
    }

    /// Detaching after `events`, taken in order.
    pub open spec fn after(self, events: Seq<DetachEvent>) -> Detach
        decreases events.len(),
    {
        if events.len() == 0 {
            self
        } else {
            self.after(events.drop_last()).step(events.last()).0
        }
    }

    /// What is to be done when event number `k` of `events` has come in.
    pub open spec fn action_at(self, events: Seq<DetachEvent>, k: int) -> DetachAction {
        self.after(events.take(k)).step(events[k]).1
    }

    /// Takes in what happened and says what to do next.
    pub fn advance(self, event: DetachEvent) -> (r: (Detach, DetachAction))
        ensures
            r == self.step(event),
    {
        match self {
            Detach::FirstFork => match event {
                DetachEvent::Forked(Forked::Parent { child }) => (
                    Detach::Reaping { child },
                    DetachAction::Reap { child },
                ),
                DetachEvent::Forked(Forked::Child) => (
                    Detach::LeavingSession,
                    DetachAction::LeaveSession,
                ),
                _ => (Detach::Finished, DetachAction::Return { result: Err(ForkError) }),
            },
            Detach::Reaping { child } => match event {
                DetachEvent::Waited(Waited::Ended) | DetachEvent::Waited(Waited::NoChild) => (
                    Detach::Finished,
                    DetachAction::Return { result: Ok(Role::Parent { child }) },
                ),
                _ => (Detach::Reaping { child }, DetachAction::Reap { child }),
            },
            Detach::LeavingSession => (
                Detach::Closing { descriptor: 0 },
                DetachAction::Close { descriptor: 0 },
            ),
            Detach::Closing { descriptor } => {
                if 0 <= descriptor && descriptor < 2 {
                    (
                        Detach::Closing { descriptor: descriptor + 1 },
                        DetachAction::Close { descriptor: descriptor + 1 },
                    )
                } else {
                    (Detach::SecondFork, DetachAction::Fork)
                }
            },
            Detach::SecondFork => match event {
                DetachEvent::Forked(Forked::Child) => (
                    Detach::Finished,
                    DetachAction::Return { result: Ok(Role::Worker) },
                ),
                _ => (Detach::Exiting, DetachAction::Exit { code: 0 }),
            },
            Detach::Exiting => (Detach::Exiting, DetachAction::Exit { code: 0 }),
            Detach::Finished => (Detach::Finished, DetachAction::Idle),
        }
    }
}

/// Begins to detach a worker: the first thing to do is to fork.
pub fn double_fork() -> (r: (Detach, DetachAction))
    ensures
        r == (Detach::FirstFork, DetachAction::Fork),
{
    (Detach::FirstFork, DetachAction::Fork)
}

/// Detaching after the first `k + 1` events is detaching after the first
/// `k`, one step on.
proof fn lemma_after_one_more(start: Detach, events: Seq<DetachEvent>, k: int)
    requires
        0 <= k < events.len(),
    ensures
        start.after(events.take(k + 1)) == start.after(events.take(k)).step(events[k]).0,
{
    assert(events.take(k + 1).drop_last() == events.take(k));
    assert(events.take(k + 1).last() == events[k]);
}

/// Detaching is at the first fork only before anything has come in.
proof fn lemma_first_fork_is_the_start(events: Seq<DetachEvent>, j: int)
    requires
        0 <= j <= events.len(),
        Detach::FirstFork.after(events.take(j)) == Detach::FirstFork,
    ensures
        j == 0,
{
    if j >= 1 {
        lemma_after_one_more(Detach::FirstFork, events, j - 1);
    }
}

/// A process that waits for `child` after `j` events has forked once, got
/// `child` by it, and has since been asked for nothing but to reap `child`.
proof fn lemma_reaping_since_the_fork(events: Seq<DetachEvent>, j: int, child: i32)
    requires
        0 <= j <= events.len(),
        Detach::FirstFork.after(events.take(j)) == (Detach::Reaping { child }),
    ensures
        j >= 1,
        events[0] == DetachEvent::Forked(Forked::Parent { child }),
        forall|i: int|
            0 <= i < j ==> Detach::FirstFork.action_at(events, i) == (DetachAction::Reap { child }),
    decreases j,
{
    let start = Detach::FirstFork;
    assert(events.take(0) == Seq::<DetachEvent>::empty());
    lemma_after_one_more(start, events, j - 1);
    let before = start.after(events.take(j - 1));
    if before == Detach::FirstFork {
        lemma_first_fork_is_the_start(events, j - 1);
    } else {
        assert(before == Detach::Reaping { child });
        lemma_reaping_since_the_fork(events, j - 1, child);
    }
}

/// Whatever comes in, the process that returns as the parent has forked
/// once, has got `child` by that fork, and has then been asked for nothing
/// but to wait for `child`, again and again until the wait ended with the
/// child reaped or with none to wait for; nothing is asked for after the
/// return. So each time a worker is detached the parent reaps its one
/// child before it returns, and leaves none behind.
pub proof fn law_parent_reaps_its_only_child(events: Seq<DetachEvent>, k: int, child: i32)
    requires
        0 <= k < events.len(),
        Detach::FirstFork.action_at(events, k) == (DetachAction::Return {
            result: Ok(Role::Parent { child }),
        }),
    ensures
        k >= 1,
        events[0] == DetachEvent::Forked(Forked::Parent { child }),
        forall|i: int|
            0 <= i < k ==> Detach::FirstFork.action_at(events, i) == (DetachAction::Reap { child }),
        events[k] == DetachEvent::Waited(Waited::Ended) || events[k] == DetachEvent::Waited(
            Waited::NoChild,
        ),
        forall|j: int|
            k < j < events.len() ==> Detach::FirstFork.action_at(events, j) == DetachAction::Idle,
{
    let start = Detach::FirstFork;
    assert(start.after(events.take(k)) == Detach::Reaping { child });
    lemma_reaping_since_the_fork(events, k, child);
    assert forall|j: int| k < j < events.len() implies start.action_at(events, j)
        == DetachAction::Idle by {
        lemma_after_one_more(start, events, k);
        lemma_after_finished(start, events, k + 1, j);
    }
}

/// As long as a wait is cut short, the parent is asked to wait for the same
/// child again: it does not return with the child unreaped.
pub proof fn law_interrupted_wait_is_repeated(child: i32)
    ensures
        (Detach::Reaping { child }).step(DetachEvent::Waited(Waited::Interrupted)) == (
            Detach::Reaping { child },
            DetachAction::Reap { child },
        ),
{
}

/// The worker comes out of two forks, each of which gave the new
/// process, with the session left and the three standard descriptors closed
/// in between.
pub proof fn law_worker_is_detached(events: Seq<DetachEvent>, k: int)
    requires
        0 <= k < events.len(),
        Detach::FirstFork.action_at(events, k) == (DetachAction::Return {
            result: Ok(Role::Worker),
        }),
    ensures
        k == 5,
        events[0] == DetachEvent::Forked(Forked::Child),
        Detach::FirstFork.action_at(events, 0) == DetachAction::LeaveSession,
        Detach::FirstFork.action_at(events, 1) == (DetachAction::Close { descriptor: 0 }),
        Detach::FirstFork.action_at(events, 2) == (DetachAction::Close { descriptor: 1 }),
        Detach::FirstFork.action_at(events, 3) == (DetachAction::Close { descriptor: 2 }),
        Detach::FirstFork.action_at(events, 4) == DetachAction::Fork,
        events[5] == DetachEvent::Forked(Forked::Child),
{
    let start = Detach::FirstFork;
    assert(events.take(0) == Seq::<DetachEvent>::empty());
    assert(start.after(events.take(k)) == Detach::SecondFork);
    assert(k >= 1);
    lemma_after_one_more(start, events, k - 1);
    assert(start.after(events.take(k - 1)) == Detach::Closing { descriptor: 2 });
    assert(k >= 2);
    lemma_after_one_more(start, events, k - 2);
    assert(start.after(events.take(k - 2)) == Detach::Closing { descriptor: 1 });
    assert(k >= 3);
    lemma_after_one_more(start, events, k - 3);
    assert(start.after(events.take(k - 3)) == Detach::Closing { descriptor: 0 });
    assert(k >= 4);
    lemma_after_one_more(start, events, k - 4);
    assert(start.after(events.take(k - 4)) == Detach::LeavingSession);
    assert(k >= 5);
    lemma_after_one_more(start, events, k - 5);
    assert(start.after(events.take(k - 5)) == Detach::FirstFork);
    if k >= 6 {
        lemma_after_one_more(start, events, k - 6);
        assert(false);
    }
}

/// Once detaching is over after `from` events, nothing is asked for when a
/// later event comes in.
proof fn lemma_after_finished(start: Detach, events: Seq<DetachEvent>, from: int, j: int)
    requires
        0 <= from <= j < events.len(),
        start.after(events.take(from)) == Detach::Finished,
    ensures
        start.after(events.take(j)) == Detach::Finished,
        start.action_at(events, j) == DetachAction::Idle,
    decreases j - from,
{
    if from < j {
        lemma_after_finished(start, events, from, j - 1);
        lemma_after_one_more(start, events, j - 1);
    }
}

} // verus!
