//! The start of the session: a credential that the check of the login put
//! aside is used by a detached worker, which waits for the bus and unlocks
//! the database under the user's own identity while the login goes on.

use crate::check::Outcome;
use crate::config::{config_path, config_path_of, UserConfig, UserIdentity};
use crate::detach::{ForkError, Role};
use crate::unlock::{try_unlock, Action, ActionView, AttemptView, UnlockAttempt, UnlockError};
use vstd::prelude::*;

verus! {

/// One step in giving up the privileges of the login.
#[derive(Clone, Copy, Debug, PartialEq, Eq, Structural)]
pub enum PrivilegeStep {
    /// Make the real user of the process its effective user.
    ResetUser,
    /// Make the real group of the process its effective group.
    ResetGroup,
    /// Make `gid` the real, effective and saved group.
    SetGroup { gid: u32 },
    /// Make `uid` the real, effective and saved user.
    SetUser { uid: u32 },
}

/// How a process becomes the user `uid` of group `gid`: it falls back to
/// its real user and group, then takes the group, then the user. The group
/// comes first, since who is no longer privileged cannot change it.
pub open spec fn privilege_plan(uid: u32, gid: u32) -> Seq<PrivilegeStep> {
    seq![
        PrivilegeStep::ResetUser,
        PrivilegeStep::ResetGroup,
        PrivilegeStep::SetGroup { gid },
        PrivilegeStep::SetUser { uid },
    ]
}

/// The steps by which the worker becomes `user`.
pub fn drop_privileges(user: &UserIdentity) -> (steps: Vec<PrivilegeStep>)
    ensures
        steps@ == privilege_plan(user.uid, user.gid),
{
    let mut steps: Vec<PrivilegeStep> = Vec::new();
    steps.push(PrivilegeStep::ResetUser);
    steps.push(PrivilegeStep::ResetGroup);
    steps.push(PrivilegeStep::SetGroup { gid: user.gid });
    steps.push(PrivilegeStep::SetUser { uid: user.uid });
    steps
}

/// Who a process is: its real, effective and saved user and group.
#[derive(Clone, Copy, Debug, PartialEq, Eq, Structural)]
pub struct ProcessIdentity {
    pub real_uid: u32,
    pub effective_uid: u32,
    pub saved_uid: u32,
    pub real_gid: u32,
    pub effective_gid: u32,
    pub saved_gid: u32,
}

/// The process is the user `uid` of group `gid`, and nothing else: no other
/// user or group is left to it to fall back to.
pub open spec fn is_user(identity: ProcessIdentity, uid: u32, gid: u32) -> bool {
    &&& identity.real_uid == uid
    &&& identity.effective_uid == uid
    &&& identity.saved_uid == uid
    &&& identity.real_gid == gid
    &&& identity.effective_gid == gid
    &&& identity.saved_gid == gid
}

/// Whether the process is `user`, and nothing else.
pub fn holds_identity(identity: &ProcessIdentity, user: &UserIdentity) -> (held: bool)
    ensures
        held == is_user(*identity, user.uid, user.gid),
{
    identity.real_uid == user.uid && identity.effective_uid == user.uid && identity.saved_uid
        == user.uid && identity.real_gid == user.gid && identity.effective_gid == user.gid
        && identity.saved_gid == user.gid
}

/// How far the start of the session has come, each process for itself.
#[derive(Clone, Copy, Debug, PartialEq, Eq, Structural)]
pub enum SessionStage {
    /// The host was asked who logs in.
    FindingUser,
    /// The user's configuration is being read.
    LoadingConfig,
    /// A worker is being detached.
    Detaching,
    /// In the worker: it gives up the privileges of the login.
    DroppingPrivileges,
    /// In the worker: the database is being unlocked.
    Unlocking,
    /// In the worker: it ends.
    Exiting,
    /// The start of the session is over.
    Finished,
}

/// The start of one session. It holds the credential, of whatever type that
/// is, until the worker has used it.
#[derive(Debug, PartialEq, Eq)]
pub struct Session<C> {
    pub stage: SessionStage,
    pub user: Option<UserIdentity>,
    pub config: Option<UserConfig>,
    pub credential: Option<C>,
}

/// What happened to the last thing that was asked for.
#[derive(Debug, PartialEq, Eq)]
pub enum SessionEvent {
    /// The host named the user, or knows none.
    User(Option<UserIdentity>),
    /// The configuration was read, or there is none that can be read.
    Config(Option<UserConfig>),
    /// Detaching ended.
    Detached(Result<Role, ForkError>),
    /// The steps that give up the privileges were taken, and this is who
    /// the process is now; nothing, if that cannot be found out.
    Became(Option<ProcessIdentity>),
    /// The attempt to unlock ended.
    Unlocked(Result<(), UnlockError>),
}

/// What the caller is to do next.
#[derive(Debug, PartialEq, Eq)]
pub enum SessionAction {
    /// Ask the host who logs in.
    FindUser,
    /// Read the configuration at `path`.
    LoadConfig { path: String },
    /// Detach a worker.
    Detach,
    /// Take the steps, in order, and say who the process is then.
    DropPrivileges { steps: Vec<PrivilegeStep> },
    /// Carry out the attempt to unlock, beginning with `first`.
    Unlock { attempt: UnlockAttempt, first: Action },
    /// End this process with the status `code`.
    Exit { code: i32 },
    /// Tell the host the outcome.
    Return { outcome: Outcome },
    /// Nothing: the start of the session was over before.
    Idle,
}

/// An action as a value.
pub enum SessionActionView {
    FindUser,
    LoadConfig { path: Seq<char> },
    Detach,
    DropPrivileges { steps: Seq<PrivilegeStep> },
    Unlock { attempt: AttemptView, first: ActionView },
    Exit { code: i32 },
    Return { outcome: Outcome },
    Idle,
}

impl View for SessionAction {
    type V = SessionActionView;

    open spec fn view(&self) -> SessionActionView {
        match self {
            SessionAction::FindUser => SessionActionView::FindUser,
            SessionAction::LoadConfig { path } => SessionActionView::LoadConfig { path: path@ },
            SessionAction::Detach => SessionActionView::Detach,
            SessionAction::DropPrivileges { steps } => SessionActionView::DropPrivileges {
                steps: steps@,
            },
            SessionAction::Unlock { attempt, first } => SessionActionView::Unlock {
                attempt: attempt@,
                first: first@,
            },
            SessionAction::Exit { code } => SessionActionView::Exit { code: *code },
            SessionAction::Return { outcome } => SessionActionView::Return { outcome: *outcome },
            SessionAction::Idle => SessionActionView::Idle,
        }
    }
}

impl<C> Session<C> {
    /// A start of a session that holds nothing, at `stage`.
    pub open spec fn empty(stage: SessionStage) -> Session<C> {
        Session { stage, user: None, config: None, credential: None }
    }

    /// The start of the session as it begins, with what was taken from the
    /// slot, and the first thing to do. `cleared` tells whether the slot was
    /// emptied. Without a credential there is nothing to do; and a
    /// credential that is still in the slot is not used, since it could be
    /// taken from there again.
    pub open spec fn begin(credential: Option<C>, cleared: bool) -> (
        Session<C>,
        SessionActionView,
    ) {
        match credential {
            Some(credential) if cleared => (
                Session {
                    stage: SessionStage::FindingUser,
                    user: None,
                    config: None,
                    credential: Some(credential),
                },
                SessionActionView::FindUser,
            ),
            _ => Self::empty(SessionStage::Finished).finish(Outcome::Ignore),
        }
    }

    /// Ending with `outcome`: the process lets go of what it held.
    pub open spec fn finish(self, outcome: Outcome) -> (Session<C>, SessionActionView) {
        (Self::empty(SessionStage::Finished), SessionActionView::Return { outcome })
    }

    /// Ending the worker.
    pub open spec fn exit(self) -> (Session<C>, SessionActionView) {
        (Self::empty(SessionStage::Exiting), SessionActionView::Exit { code: 0 })
    }

    /// The start of the session after `event`, and what is to be done next.
    ///
    /// The user is found, then the configuration; then a worker is detached.
    /// The process that asked returns at once, and with success even if no
    /// worker could be made: the login does not wait. The worker gives up
    /// the privileges of the login. Only if it then is the user who logs
    /// in, and nothing else, it waits for the bus and unlocks the database.
    /// Then it ends, however that went.
    pub open spec fn step(self, event: SessionEvent) -> (Session<C>, SessionActionView) {
        match self.stage {
            SessionStage::FindingUser => match event {
                SessionEvent::User(Some(user)) => (
                    Session { stage: SessionStage::LoadingConfig, user: Some(user), ..self },
                    SessionActionView::LoadConfig { path: config_path_of(user.home@) },
                ),
                _ => self.finish(Outcome::UserUnknown),
            },
            SessionStage::LoadingConfig => match event {
                SessionEvent::Config(Some(config)) => (
                    Session { stage: SessionStage::Detaching, config: Some(config), ..self },
                    SessionActionView::Detach,
                ),
                _ => self.finish(Outcome::Ignore),
            },
            SessionStage::Detaching => match (self.user, event) {
                (Some(user), SessionEvent::Detached(Ok(Role::Worker))) => (
                    Session { stage: SessionStage::DroppingPrivileges, ..self },
                    SessionActionView::DropPrivileges { steps: privilege_plan(user.uid, user.gid) },
                ),
                (None, SessionEvent::Detached(Ok(Role::Worker))) => self.exit(),
                _ => self.finish(Outcome::Success),
            },
            SessionStage::DroppingPrivileges => match (self.user, self.config, event) {
                (Some(user), Some(config), SessionEvent::Became(Some(identity))) => if is_user(
                    identity,
                    user.uid,
                    user.gid,
                ) {
                    let (attempt, first) = AttemptView::begin(
                        false,
                        user.uid,
                        user.home@,
                        config@,
                    ).connect_at(0);
                    (
                        Session { stage: SessionStage::Unlocking, ..self },
                        SessionActionView::Unlock { attempt, first },
                    )
                } else {
                    self.exit()
                },
                _ => self.exit(),
            },
            SessionStage::Unlocking => self.exit(),
            SessionStage::Exiting => self.exit(),
            SessionStage::Finished => (self, SessionActionView::Idle),
        }
    }

    fn end(outcome: Outcome) -> (r: (Session<C>, SessionAction))
        ensures
            r.0 == Self::empty(SessionStage::Finished),
            r.1 == (SessionAction::Return { outcome }),
    {
        (
            Session { stage: SessionStage::Finished, user: None, config: None, credential: None },
            SessionAction::Return { outcome },
        )
    }

    fn leave() -> (r: (Session<C>, SessionAction))
        ensures
            r.0 == Self::empty(SessionStage::Exiting),
            r.1 == (SessionAction::Exit { code: 0 }),
    {
        (
            Session { stage: SessionStage::Exiting, user: None, config: None, credential: None },
            SessionAction::Exit { code: 0 },
        )
    }

    /// Takes in what happened and says what to do next.
    pub fn advance(self, event: SessionEvent) -> (r: (Session<C>, SessionAction))
        ensures
            r.0 == self.step(event).0,
            r.1@ == self.step(event).1,
    {
        let Session { stage, user, config, credential } = self;
        match stage {
            SessionStage::FindingUser => match event {
                SessionEvent::User(Some(user)) => {
                    let path = config_path(&user);
                    (
                        Session {
                            stage: SessionStage::LoadingConfig,
                            user: Some(user),
                            config,
                            credential,
                        },
                        SessionAction::LoadConfig { path },
                    )
                },
                _ => Self::end(Outcome::UserUnknown),
            },
            SessionStage::LoadingConfig => match event {
                SessionEvent::Config(Some(config)) => (
                    Session {
                        stage: SessionStage::Detaching,
                        user,
                        config: Some(config),
                        credential,
                    },
                    SessionAction::Detach,
                ),
                _ => Self::end(Outcome::Ignore),
            },
            SessionStage::Detaching => match (user, event) {
                (Some(user), SessionEvent::Detached(Ok(Role::Worker))) => {
                    let steps = drop_privileges(&user);
                    (
                        Session {
                            stage: SessionStage::DroppingPrivileges,
                            user: Some(user),
                            config,
                            credential,
                        },
                        SessionAction::DropPrivileges { steps },
                    )
                },
                (None, SessionEvent::Detached(Ok(Role::Worker))) => Self::leave(),
                _ => Self::end(Outcome::Success),
            },
            SessionStage::DroppingPrivileges => match (user, config, event) {
                (Some(user), Some(config), SessionEvent::Became(Some(identity))) => {
                    if holds_identity(&identity, &user) {
                        let (attempt, first) = try_unlock(false, &user, &config);
                        (
                            Session {
                                stage: SessionStage::Unlocking,
                                user: Some(user),
                                config: Some(config),
                                credential,
                            },
                            SessionAction::Unlock { attempt, first },
                        )
                    } else {
                        Self::leave()
                    }
                },
                _ => Self::leave(),
            },
            SessionStage::Unlocking => Self::leave(),
            SessionStage::Exiting => Self::leave(),
            SessionStage::Finished => (
                Session { stage: SessionStage::Finished, user, config, credential },
                SessionAction::Idle,
            ),
        }
    }
}

impl<C> Session<C> {
    /// The start of the session after `events`, taken in order.
    pub open spec fn after(self, events: Seq<SessionEvent>) -> Session<C>
        decreases events.len(),
    {
        if events.len() == 0 {
            self
        } else {
            self.after(events.drop_last()).step(events.last()).0
        }
    }

    /// What is to be done when event number `k` of `events` has come in.
    pub open spec fn action_at(self, events: Seq<SessionEvent>, k: int) -> SessionActionView {
        self.after(events.take(k)).step(events[k]).1
    }
}

/// The start of the session after the first `k + 1` events is the one after
/// the first `k`, one step on.
proof fn lemma_after_one_more<C>(start: Session<C>, events: Seq<SessionEvent>, k: int)
    requires
        0 <= k < events.len(),
    ensures
        start.after(events.take(k + 1)) == start.after(events.take(k)).step(events[k]).0,
{
    assert(events.take(k + 1).drop_last() == events.take(k));
    assert(events.take(k + 1).last() == events[k]);
}

/// Whatever comes in, the database is unlocked at the start of a session
/// only by the detached worker, only once it is the user who logs in and
/// nothing else, and by an attempt that waits for that user's bus: the host
/// named the user, the configuration was read, detaching gave the worker,
/// the worker was told to take the steps that make it that user, and what it
/// then was is that user, with no other user or group left to it.
pub proof fn law_worker_unlocks_as_the_user<C>(credential: C, events: Seq<SessionEvent>, k: int)
    requires
        0 <= k < events.len(),
        Session::begin(Some(credential), true).0.action_at(events, k) is Unlock,
    ensures
        k == 3,
        events[0] matches SessionEvent::User(Some(user)) && events[1] matches SessionEvent::Config(
            Some(config),
        ) && events[3] matches SessionEvent::Became(Some(identity)) && is_user(
            identity,
            user.uid,
            user.gid,
        ) && Session::begin(Some(credential), true).0.action_at(events, 2) == (
        SessionActionView::DropPrivileges { steps: privilege_plan(user.uid, user.gid) }) && ({
            let (attempt, first) = AttemptView::begin(
                false,
                user.uid,
                user.home@,
                config@,
            ).connect_at(0);
            Session::begin(Some(credential), true).0.action_at(events, 3) == (
            SessionActionView::Unlock { attempt, first })
        }),
        events[2] == SessionEvent::Detached(Ok(Role::Worker)),
{
    let start = Session::begin(Some(credential), true).0;
    assert(events.take(0) == Seq::<SessionEvent>::empty());
    assert(start.after(events.take(k)).stage == SessionStage::DroppingPrivileges);
    assert(k >= 1);
    lemma_after_one_more(start, events, k - 1);
    assert(start.after(events.take(k - 1)).stage == SessionStage::Detaching);
    assert(k >= 2);
    lemma_after_one_more(start, events, k - 2);
    assert(start.after(events.take(k - 2)).stage == SessionStage::LoadingConfig);
    assert(k >= 3);
    lemma_after_one_more(start, events, k - 3);
    assert(start.after(events.take(k - 3)).stage == SessionStage::FindingUser);
    if k >= 4 {
        lemma_after_one_more(start, events, k - 4);
        assert(false);
    }
}

/// A worker that is not the user who logs in, or of whom that cannot be
/// found out, ends without a connection to the bus: the credential goes
/// nowhere.
pub proof fn law_privileged_worker_ends<C>(session: Session<C>, event: SessionEvent)
    requires
        session.stage == SessionStage::DroppingPrivileges,
        !(session.user matches Some(user) && event matches SessionEvent::Became(Some(identity))
            && is_user(identity, user.uid, user.gid)),
    ensures
        session.step(event) == session.exit(),
{
}

/// The process that asked for the worker does not wait for it: as soon as
/// detaching has ended for that process, with or without a worker, the host
/// is told that the start of the session succeeded.
pub proof fn law_login_does_not_wait<C>(session: Session<C>, result: Result<Role, ForkError>)
    requires
        session.stage == SessionStage::Detaching,
        result != Ok::<Role, ForkError>(Role::Worker),
    ensures
        session.step(SessionEvent::Detached(result)).1 == (SessionActionView::Return {
            outcome: Outcome::Success,
        }),
{
}

/// Begins the start of a session with what was taken from the slot;
/// `cleared` tells whether the slot was emptied.
pub fn open_session<C>(credential: Option<C>, cleared: bool) -> (r: (Session<C>, SessionAction))
    ensures
        r.0 == Session::<C>::begin(credential, cleared).0,
        r.1@ == Session::<C>::begin(credential, cleared).1,
{
    match credential {
        Some(credential) if cleared => (
            Session {
                stage: SessionStage::FindingUser,
                user: None,
                config: None,
                credential: Some(credential),
            },
            SessionAction::FindUser,
        ),
        _ => Session::<C>::end(Outcome::Ignore),
    }
}

/// The end of a session is none of this module's business.
pub fn close_session() -> (outcome: Outcome)
    ensures
        outcome == Outcome::Ignore,
{
    Outcome::Ignore
}

} // verus!
