//! The certificate-provisioning state machine: one short-lived run per host,
//! before that host starts serving. The stages run strictly in order; the
//! first failure abandons provisioning for that host, and never for any
//! other, nor does it keep the host from serving without a certificate.
//!
//! The calls behind each stage (contacting the authority, writing files) are
//! outside work: the caller performs the stage named by the current state and
//! feeds back whether it succeeded.

use vstd::prelude::*;

verus! {

/// The stages of certificate provisioning, in the order they run.
#[derive(Clone, Copy, Debug, PartialEq, Eq, Structural)]
pub enum ProvisionStage {
    /// Contact the authority's well-known directory endpoint to learn its API
    /// endpoints.
    Directory,
    /// Register an account with the authority, or re-use an existing one.
    Registration,
    /// Request an authorization object for the host's domain name.
    Authorization,
    /// Select the HTTP challenge from the authorization; fail when the
    /// authority offers none.
    ChallengeRetrieval,
    /// Write the challenge's key-authorization file under the served root, at
    /// the well-known path the authority will fetch.
    ChallengeProvisioning,
    /// Signal the authority to validate, and await its verdict.
    Validation,
    /// Submit a signing request and receive the signed certificate.
    Signing,
    /// Write the certificate and its private key to their two fixed files.
    Persistence,
}

/// Where provisioning for one host stands.
#[derive(Clone, Copy, Debug, PartialEq, Eq, Structural)]
pub enum ProvisionState {
    /// The named stage is the next one to run.
    InProgress(ProvisionStage),
    /// Every stage succeeded: the certificate and its key are on disk.
    Succeeded,
    /// The named stage failed: provisioning is abandoned for this host.
    Failed(ProvisionStage),
}

/// Each stage's position in the run.
pub open spec fn stage_index(s: ProvisionStage) -> int {
    match s {
        ProvisionStage::Directory => 0,
        ProvisionStage::Registration => 1,
        ProvisionStage::Authorization => 2,
        ProvisionStage::ChallengeRetrieval => 3,
        ProvisionStage::ChallengeProvisioning => 4,
        ProvisionStage::Validation => 5,
        ProvisionStage::Signing => 6,
        ProvisionStage::Persistence => 7,
    }
}

/// The stage at a given position in the run.
pub open spec fn stage_at(i: int) -> ProvisionStage {
    if i == 0 {
        ProvisionStage::Directory
    } else if i == 1 {
        ProvisionStage::Registration
    } else if i == 2 {
        ProvisionStage::Authorization
    } else if i == 3 {
        ProvisionStage::ChallengeRetrieval
    } else if i == 4 {
        ProvisionStage::ChallengeProvisioning
    } else if i == 5 {
        ProvisionStage::Validation
    } else if i == 6 {
        ProvisionStage::Signing
    } else {
        ProvisionStage::Persistence
    }
}

/// How far along the run a state stands: a terminal state keeps the position
/// it was reached at, a full success stands past every stage.
pub open spec fn state_rank(s: ProvisionState) -> int {
    match s {
        ProvisionState::InProgress(st) => stage_index(st),
        ProvisionState::Succeeded => 8,
        ProvisionState::Failed(st) => stage_index(st),
    }
}

/// The state a run begins in.
pub open spec fn initial_state() -> ProvisionState {
    ProvisionState::InProgress(ProvisionStage::Directory)
}

/// The state after one stage's outcome: success moves to the following stage
/// (or ends the run after the last one), failure ends the run where it
/// stands, and a terminal state never moves again.
pub open spec fn spec_step(state: ProvisionState, ok: bool) -> ProvisionState {
    match state {
        ProvisionState::InProgress(st) => {
            if !ok {
                ProvisionState::Failed(st)
            } else if st is Persistence {
                ProvisionState::Succeeded
            } else {
                ProvisionState::InProgress(stage_at(stage_index(st) + 1))
            }
        },
        ProvisionState::Succeeded => ProvisionState::Succeeded,
        ProvisionState::Failed(st) => ProvisionState::Failed(st),
    }
}

/// The state after a whole run of outcomes, first outcome first.
pub open spec fn run(state: ProvisionState, outcomes: Seq<bool>) -> ProvisionState
    decreases outcomes.len(),
{
    if outcomes.len() == 0 {
        state
    } else {
        run(spec_step(state, outcomes[0]), outcomes.drop_first())
    }
}

/// The state a run begins in.
pub fn start_provisioning() -> (s: ProvisionState)
    ensures
        s == initial_state(),
{
    ProvisionState::InProgress(ProvisionStage::Directory)
}

/// Advances the machine by one stage's outcome; see [`spec_step`].
pub fn step(state: ProvisionState, ok: bool) -> (r: ProvisionState)
    ensures
        r == spec_step(state, ok),
{
    match state {
        ProvisionState::InProgress(st) => {
            if !ok {
                ProvisionState::Failed(st)
            } else {
                match st {
                    ProvisionStage::Directory => ProvisionState::InProgress(
                        ProvisionStage::Registration,
                    ),
                    ProvisionStage::Registration => ProvisionState::InProgress(
                        ProvisionStage::Authorization,
                    ),
                    ProvisionStage::Authorization => ProvisionState::InProgress(
                        ProvisionStage::ChallengeRetrieval,
                    ),
                    ProvisionStage::ChallengeRetrieval => ProvisionState::InProgress(
                        ProvisionStage::ChallengeProvisioning,
                    ),
                    ProvisionStage::ChallengeProvisioning => ProvisionState::InProgress(
                        ProvisionStage::Validation,
                    ),
                    ProvisionStage::Validation => ProvisionState::InProgress(
                        ProvisionStage::Signing,
                    ),
                    ProvisionStage::Signing => ProvisionState::InProgress(
                        ProvisionStage::Persistence,
                    ),
                    ProvisionStage::Persistence => ProvisionState::Succeeded,
                }
            }
        },
        ProvisionState::Succeeded => ProvisionState::Succeeded,
        ProvisionState::Failed(st) => ProvisionState::Failed(st),
    }
}

/// No backward transition: a step never moves the run to an earlier position.
pub proof fn lemma_no_backward_transition(state: ProvisionState, ok: bool)
    ensures
        state_rank(spec_step(state, ok)) >= state_rank(state),
{
}

/// A terminal state is final: no outcome, and no whole run of outcomes, moves
/// it.
pub proof fn lemma_terminal_run(state: ProvisionState, outcomes: Seq<bool>)
    requires
        state is Succeeded || state is Failed,
    ensures
        run(state, outcomes) == state,
    decreases outcomes.len(),
{
    if outcomes.len() > 0 {
        lemma_terminal_run(state, outcomes.drop_first());
    }
}

proof fn lemma_run_all_ok_from(st: ProvisionStage, outcomes: Seq<bool>)
    requires
        outcomes.len() >= 8 - stage_index(st),
        forall|k: int| 0 <= k < 8 - stage_index(st) ==> outcomes[k],
    ensures
        run(ProvisionState::InProgress(st), outcomes) == ProvisionState::Succeeded,
    decreases outcomes.len(),
{
    assert(outcomes[0]);
    if st is Persistence {
        lemma_terminal_run(ProvisionState::Succeeded, outcomes.drop_first());
    } else {
        let st2 = stage_at(stage_index(st) + 1);
        assert(stage_index(st2) == stage_index(st) + 1);
        lemma_run_all_ok_from(st2, outcomes.drop_first());
    }
}

proof fn lemma_run_fails_from(st: ProvisionStage, outcomes: Seq<bool>, k: int)
    requires
        0 <= k < 8 - stage_index(st),
        k < outcomes.len(),
        !outcomes[k],
        forall|j: int| 0 <= j < k ==> outcomes[j],
    ensures
        run(ProvisionState::InProgress(st), outcomes) == ProvisionState::Failed(
            stage_at(stage_index(st) + k),
        ),
    decreases outcomes.len(),
{
    if k == 0 {
        assert(stage_at(stage_index(st)) == st);
        lemma_terminal_run(ProvisionState::Failed(st), outcomes.drop_first());
    } else {
        assert(outcomes[0]);
        let st2 = stage_at(stage_index(st) + 1);
        assert(stage_index(st2) == stage_index(st) + 1);
        lemma_run_fails_from(st2, outcomes.drop_first(), k - 1);
    }
}

/// A run in which all eight stages succeed ends with the certificate and key
/// persisted.
pub proof fn lemma_provision_succeeds(outcomes: Seq<bool>)
    requires
        outcomes.len() == 8,
        forall|k: int| 0 <= k < 8 ==> outcomes[k],
    ensures
        run(initial_state(), outcomes) == ProvisionState::Succeeded,
{
    lemma_run_all_ok_from(ProvisionStage::Directory, outcomes);
}

/// A run whose first failure comes at position `k` ends abandoned at exactly
/// the stage that stands at `k`, whatever comes after.
pub proof fn lemma_provision_fails_at(outcomes: Seq<bool>, k: int)
    requires
        0 <= k < 8,
        k < outcomes.len(),
        !outcomes[k],
        forall|j: int| 0 <= j < k ==> outcomes[j],
    ensures
        run(initial_state(), outcomes) == ProvisionState::Failed(stage_at(k)),
{
    lemma_run_fails_from(ProvisionStage::Directory, outcomes, k);
}

} // verus!
