//! The short post-commit window in which a learning commit may be rolled
//! back: armed after a commit, matched only in the same context before its
//! deadline, and disarmed by any intervening edit, navigation or focus change.

use crate::model::CommitToken;
use vstd::prelude::*;

verus! {

/// Events that end the rollback window.
#[derive(Clone, Copy, Debug, PartialEq, Eq, Structural)]
pub enum GuardEvent {
    TextInput,
    Navigation,
    FocusChanged,
}

/// The armed rollback: which commit, in which context, until when.
#[derive(Clone, Copy, Debug, PartialEq, Eq, Structural)]
pub struct ArmedRollback {
    pub token: CommitToken,
    pub context_identity: usize,
    pub deadline_ms: u64,
}

#[derive(Clone, Debug, Default)]
pub struct RollbackGuard {
    armed: Option<ArmedRollback>,
}

impl View for RollbackGuard {
    type V = Option<ArmedRollback>;

    closed spec fn view(&self) -> Option<ArmedRollback> {
        self.armed
    }
}

/// The token that may be rolled back in `context_identity` at `now_ms`.
pub open spec fn spec_matching_token(
    armed: Option<ArmedRollback>,
    context_identity: usize,
    now_ms: u64,
) -> Option<CommitToken> {
    match armed {
        Some(a) => if a.context_identity == context_identity && now_ms < a.deadline_ms {
            Some(a.token)
        } else {
            None
        },
        None => None,
    }
}

impl RollbackGuard {
    pub fn new() -> (guard: Self)
        ensures
            guard@ is None,
    {
        RollbackGuard { armed: None }
    }

    /// Arm the window for `token` in `context_identity` until `deadline_ms`,
    /// replacing any earlier armed commit.
    pub fn arm(&mut self, token: CommitToken, context_identity: usize, deadline_ms: u64)
        ensures
            final(self)@ == Some(ArmedRollback { token, context_identity, deadline_ms }),
    {
        self.armed = Some(ArmedRollback { token, context_identity, deadline_ms });
    }

    pub fn is_armed(&self) -> (b: bool)
        ensures
            b == self@ is Some,
    {
        self.armed.is_some()
    }

    /// The armed token, if the context matches and the deadline has not passed.
    pub fn matching_token(&self, context_identity: usize, now_ms: u64) -> (t: Option<CommitToken>)
        ensures
            t == spec_matching_token(self@, context_identity, now_ms),
    {
        match self.armed {
            Some(armed) => if armed.context_identity == context_identity && now_ms < armed.deadline_ms {
                Some(armed.token)
            } else {
                None
            },
            None => None,
        }
    }

    /// Any intervening event closes the window.
    pub fn observe(&mut self, event: GuardEvent)
        ensures
            final(self)@ is None,
    {
        self.disarm();
    }

    pub fn disarm(&mut self)
        ensures
            final(self)@ is None,
    {
        self.armed = None;
    }
}

/// After arming, the token matches exactly in the armed context strictly
/// before the deadline.
pub proof fn lemma_armed_token_matches(
    token: CommitToken,
    context_identity: usize,
    deadline_ms: u64,
    other_context: usize,
    now_ms: u64,
)
    ensures
        spec_matching_token(
            Some(ArmedRollback { token, context_identity, deadline_ms }),
            other_context,
            now_ms,
        ) == (if other_context == context_identity && now_ms < deadline_ms {
            Some(token)
        } else {
            None
        }),
        spec_matching_token(None, other_context, now_ms) is None,
{
}

/// The elapsed milliseconds, saturated at `u64::MAX`.
pub open spec fn saturated_ms(elapsed_ms: int) -> int {
    if elapsed_ms > u64::MAX {
        u64::MAX as int
    } else {
        elapsed_ms
    }
}

/// A clock reading in milliseconds: the elapsed milliseconds, saturated
/// at `u64::MAX`.
pub fn saturating_ms(elapsed_ms: u128) -> (r: u64)
    ensures
        r == saturated_ms(elapsed_ms as int),
{
    if elapsed_ms > u64::MAX as u128 {
        u64::MAX
    } else {
        elapsed_ms as u64
    }
}

/// Clock readings never go back: a later elapsed time gives at least the
/// same milliseconds, also past the end of the `u64` range.
pub proof fn lemma_saturated_ms_monotone(earlier: int, later: int)
    requires
        0 <= earlier <= later,
    ensures
        saturated_ms(earlier) <= saturated_ms(later),
{
}

} // verus!
