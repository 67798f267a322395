//! The check of the login: the host has a credential in hand, and the
//! database is unlocked with it at once if KeePassXC is there. If not, the
//! credential is kept for the start of the session.

use crate::config::{config_path, config_path_of, UserConfig, UserIdentity};
use crate::unlock::{try_unlock, Action, ActionView, AttemptView, UnlockAttempt, UnlockError};
use vstd::prelude::*;

verus! {

/// What this module tells the host about a phase of the login.
#[derive(Clone, Copy, Debug, PartialEq, Eq, Structural)]
pub enum Outcome {
    /// The phase did what it is for.
    Success,
    /// The user has not set this module up: others decide.
    Ignore,
    /// No credential was offered, or the database was not unlocked.
    AuthFailed,
    /// The host knows no such user.
    UserUnknown,
}

/// How far the check has come.
#[derive(Clone, Copy, Debug, PartialEq, Eq, Structural)]
pub enum CheckStage {
    /// The host was asked who logs in.
    FindingUser,
    /// The host was asked for the credential.
    AskingCredential,
    /// The user's configuration is being read.
    LoadingConfig,
    /// The database is being unlocked.
    Unlocking,
    /// The credential is being put aside for the start of the session.
    Storing,
    /// The check is over.
    Finished,
}

/// The check of one login. It holds the credential, of whatever type that
/// is, from the moment the host hands it over until it is put aside or no
/// longer needed.
#[derive(Debug, PartialEq, Eq)]
pub struct Check<C> {
    pub stage: CheckStage,
    pub user: Option<UserIdentity>,
    pub credential: Option<C>,
}

/// What happened to the last thing that the check asked for.
#[derive(Debug, PartialEq, Eq)]
pub enum CheckEvent<C> {
    /// The host named the user, or knows none.
    User(Option<UserIdentity>),
    /// The host handed over the credential, or has none.
    Credential(Option<C>),
    /// The configuration was read, or there is none that can be read.
    Config(Option<UserConfig>),
    /// The attempt to unlock ended.
    Unlocked(Result<(), UnlockError>),
    /// The credential was put aside.
    Stored,
}

/// What the caller is to do next.
#[derive(Debug, PartialEq, Eq)]
pub enum CheckAction<C> {
    /// Ask the host who logs in.
    FindUser,
    /// Ask the host for the credential.
    AskCredential,
    /// Read the configuration at `path`.
    LoadConfig { path: String },
    /// Carry out the attempt to unlock, beginning with `first`.
    Unlock { attempt: UnlockAttempt, first: Action },
    /// Put the credential aside for the start of the session.
    Store { credential: C },
    /// Tell the host the outcome.
    Return { outcome: Outcome },
    /// Nothing: the check was over before.
    Idle,
}

/// An action as a value.
pub enum CheckActionView<C> {
    FindUser,
    AskCredential,
    LoadConfig { path: Seq<char> },
    Unlock { attempt: AttemptView, first: ActionView },
    Store { credential: C },
    Return { outcome: Outcome },
    Idle,
}

impl<C> View for CheckAction<C> {
    type V = CheckActionView<C>;

    open spec fn view(&self) -> CheckActionView<C> {
        match self {
            CheckAction::FindUser => CheckActionView::FindUser,
            CheckAction::AskCredential => CheckActionView::AskCredential,
            CheckAction::LoadConfig { path } => CheckActionView::LoadConfig { path: path@ },
            CheckAction::Unlock { attempt, first } => CheckActionView::Unlock {
                attempt: attempt@,
                first: first@,
            },
            CheckAction::Store { credential } => CheckActionView::Store { credential: *credential },
            CheckAction::Return { outcome } => CheckActionView::Return { outcome: *outcome },
            CheckAction::Idle => CheckActionView::Idle,
        }
    }
}

impl<C> Check<C> {
    /// The check as it begins.
    pub open spec fn begin() -> Check<C> {
        Check { stage: CheckStage::FindingUser, user: None, credential: None }
    }

    /// Ending with `outcome`: the check lets go of what it held.
    pub open spec fn finish(self, outcome: Outcome) -> (Check<C>, CheckActionView<C>) {
        (
            Check { stage: CheckStage::Finished, user: None, credential: None },
            CheckActionView::Return { outcome },
        )
    }

    /// The check after `event`, and what is to be done next.
    ///
    /// The user is found, then the credential, then the configuration; who
    /// has none is not this module's to judge. Then the database is unlocked
    /// at once. If that fails the credential is put aside, and the check
    /// fails.
    pub open spec fn step(self, event: CheckEvent<C>) -> (Check<C>, CheckActionView<C>) {
        match self.stage {
            CheckStage::FindingUser => match event {
                CheckEvent::User(Some(user)) => (
                    Check {
                        stage: CheckStage::AskingCredential,
                        user: Some(user),
                        credential: None,
                    },
                    CheckActionView::AskCredential,
                ),
                CheckEvent::User(None) => self.finish(Outcome::UserUnknown),
                _ => self.finish(Outcome::AuthFailed),
            },
            CheckStage::AskingCredential => match (self.user, event) {
                (Some(user), CheckEvent::Credential(Some(credential))) => (
                    Check {
                        stage: CheckStage::LoadingConfig,
                        user: Some(user),
                        credential: Some(credential),
                    },
                    CheckActionView::LoadConfig { path: config_path_of(user.home@) },
                ),
                _ => self.finish(Outcome::AuthFailed),
            },
            CheckStage::LoadingConfig => match (self.user, event) {
                (Some(user), CheckEvent::Config(Some(config))) => {
                    let (attempt, first) = AttemptView::begin(
                        true,
                        user.uid,
                        user.home@,
                        config@,
                    ).connect_at(0);
                    (
                        Check { stage: CheckStage::Unlocking, ..self },
                        CheckActionView::Unlock { attempt, first },
                    )
                },
                (Some(user), CheckEvent::Config(None)) => self.finish(Outcome::Ignore),
                _ => self.finish(Outcome::AuthFailed),
            },
            CheckStage::Unlocking => match (self.credential, event) {
                (_, CheckEvent::Unlocked(Ok(()))) => self.finish(Outcome::Success),
                (Some(credential), CheckEvent::Unlocked(Err(_))) => (
                    Check { stage: CheckStage::Storing, user: None, credential: None },
                    CheckActionView::Store { credential },
                ),
                _ => self.finish(Outcome::AuthFailed),
            },
            CheckStage::Storing => self.finish(Outcome::AuthFailed),
            CheckStage::Finished => (self, CheckActionView::Idle),
        }
    }

    fn end(outcome: Outcome) -> (r: (Check<C>, CheckAction<C>))
        ensures
            r.0 == (Check::<C> { stage: CheckStage::Finished, user: None, credential: None }),
            r.1 == (CheckAction::<C>::Return { outcome }),
    {
        (
            Check { stage: CheckStage::Finished, user: None, credential: None },
            CheckAction::Return { outcome },
        )
    }

    /// Takes in what happened and says what to do next.
    pub fn advance(self, event: CheckEvent<C>) -> (r: (Check<C>, CheckAction<C>))
        ensures
            r.0 == self.step(event).0,
            r.1@ == self.step(event).1,
    {
        let Check { stage, user, credential } = self;
        match stage {
            CheckStage::FindingUser => match event {
                CheckEvent::User(Some(user)) => (
                    Check {
                        stage: CheckStage::AskingCredential,
                        user: Some(user),
                        credential: None,
                    },
                    CheckAction::AskCredential,
                ),
                CheckEvent::User(None) => Self::end(Outcome::UserUnknown),
                _ => Self::end(Outcome::AuthFailed),
            },
            CheckStage::AskingCredential => match (user, event) {
                (Some(user), CheckEvent::Credential(Some(credential))) => {
                    let path = config_path(&user);
                    (
                        Check {
                            stage: CheckStage::LoadingConfig,
                            user: Some(user),
                            credential: Some(credential),
                        },
                        CheckAction::LoadConfig { path },
                    )
                },
                _ => Self::end(Outcome::AuthFailed),
            },
            CheckStage::LoadingConfig => match (user, event) {
                (Some(user), CheckEvent::Config(Some(config))) => {
                    let (attempt, first) = try_unlock(true, &user, &config);
                    (
                        Check { stage: CheckStage::Unlocking, user: Some(user), credential },
                        CheckAction::Unlock { attempt, first },
                    )
                },
                (Some(_), CheckEvent::Config(None)) => Self::end(Outcome::Ignore),
                _ => Self::end(Outcome::AuthFailed),
            },
            CheckStage::Unlocking => match (credential, event) {
                (_, CheckEvent::Unlocked(Ok(()))) => Self::end(Outcome::Success),
                (Some(credential), CheckEvent::Unlocked(Err(_))) => (
                    Check { stage: CheckStage::Storing, user: None, credential: None },
                    CheckAction::Store { credential },
                ),
                _ => Self::end(Outcome::AuthFailed),
            },
            CheckStage::Storing => Self::end(Outcome::AuthFailed),
            CheckStage::Finished => (
                Check { stage: CheckStage::Finished, user, credential },
                CheckAction::Idle,
            ),
        }
    }
}

impl<C> Check<C> {
    /// The check after `events`, taken in order.
    pub open spec fn after(self, events: Seq<CheckEvent<C>>) -> Check<C>
        decreases events.len(),
    {
        if events.len() == 0 {
            self
        } else {
            self.after(events.drop_last()).step(events.last()).0
        }
    }

    /// What is to be done when event number `k` of `events` has come in.
    pub open spec fn action_at(self, events: Seq<CheckEvent<C>>, k: int) -> CheckActionView<C> {
        self.after(events.take(k)).step(events[k]).1
    }
}

/// The check after the first `k + 1` events is the check after the first
/// `k`, one step on.
proof fn lemma_after_one_more<C>(start: Check<C>, events: Seq<CheckEvent<C>>, k: int)
    requires
        0 <= k < events.len(),
    ensures
        start.after(events.take(k + 1)) == start.after(events.take(k)).step(events[k]).0,
{
    assert(events.take(k + 1).drop_last() == events.take(k));
    assert(events.take(k + 1).last() == events[k]);
}

/// Whatever comes in, a credential is put aside only when an attempt to
/// unlock at once has failed, and it is the credential that the host handed
/// over for this login: the host named the user, then handed over the
/// credential, then the configuration was read, then the attempt failed.
pub proof fn law_stored_only_after_failed_unlock<C>(
    events: Seq<CheckEvent<C>>,
    k: int,
    credential: C,
)
    requires
        0 <= k < events.len(),
        Check::<C>::begin().action_at(events, k) == (CheckActionView::Store { credential }),
    ensures
        k == 3,
        events[0] matches CheckEvent::User(Some(_)),
        events[1] == CheckEvent::Credential(Some(credential)),
        events[2] matches CheckEvent::Config(Some(_)),
        Check::<C>::begin().action_at(events, 2) is Unlock,
        events[3] matches CheckEvent::Unlocked(Err(_)),
{
    let start = Check::<C>::begin();
    assert(events.take(0) == Seq::<CheckEvent<C>>::empty());
    assert(start.after(events.take(k)).stage == CheckStage::Unlocking);
    assert(k >= 1);
    lemma_after_one_more(start, events, k - 1);
    assert(start.after(events.take(k - 1)).stage == CheckStage::LoadingConfig);
    assert(k >= 2);
    lemma_after_one_more(start, events, k - 2);
    assert(start.after(events.take(k - 2)).stage == CheckStage::AskingCredential);
    assert(k >= 3);
    lemma_after_one_more(start, events, k - 3);
    assert(start.after(events.take(k - 3)).stage == CheckStage::FindingUser);
    if k >= 4 {
        lemma_after_one_more(start, events, k - 4);
        assert(false);
    }
}

/// Whatever comes in, the check succeeds only when the attempt to unlock
/// did.
pub proof fn law_success_only_after_unlock<C>(events: Seq<CheckEvent<C>>, k: int)
    requires
        0 <= k < events.len(),
        Check::<C>::begin().action_at(events, k) == (CheckActionView::<C>::Return {
            outcome: Outcome::Success,
        }),
    ensures
        k >= 1,
        Check::<C>::begin().action_at(events, k - 1) is Unlock,
        events[k] matches CheckEvent::Unlocked(Ok(_)),
{
    let start = Check::<C>::begin();
    assert(events.take(0) == Seq::<CheckEvent<C>>::empty());
    assert(start.after(events.take(k)).stage == CheckStage::Unlocking);
    lemma_after_one_more(start, events, k - 1);
}

/// Begins the check of a login: the first thing to do is to ask the host who
/// logs in.
pub fn authenticate<C>() -> (r: (Check<C>, CheckAction<C>))
    ensures
        r.0 == Check::<C>::begin(),
        r.1@ == CheckActionView::<C>::FindUser,
{
    (Check { stage: CheckStage::FindingUser, user: None, credential: None }, CheckAction::FindUser)
}

} // verus!
