//! Source acquisition policy: when to fetch, when to reuse, how to retry.
//!
//! Acquisition guarantees a usable local source tree exists at a
//! deterministic path before any build runs. The decisions live here; the
//! unverified shell only observes the filesystem, spawns the clone command,
//! and reports exit statuses back.

use crate::config::SourceSpec;
use crate::error::InstallError;
use vstd::prelude::*;

verus! {

/// The total number of clone attempts allowed before acquisition fails.
pub const MAX_CLONE_ATTEMPTS: u8 = 3;

/// What acquisition does for one source.
#[derive(Clone, Copy, Debug, PartialEq, Eq, Structural)]
pub enum AcquireDecision {
    /// A caller-supplied local tree: use it unchanged, never touch the
    /// network, never remove anything.
    UseLocal,
    /// The staging tree is already populated and no re-fetch was forced:
    /// reuse it without any network action.
    ReuseStaging,
    /// Remove any stale staging tree, then clone afresh.
    Refetch,
}

/// The acquisition decision as a function of the source kind, the
/// `force_refetch` flag, and whether the staging tree already exists.
pub open spec fn spec_acquire_decision(
    source: SourceSpec,
    force_refetch: bool,
    staging_exists: bool,
) -> AcquireDecision {
    match source {
        SourceSpec::Local { .. } => AcquireDecision::UseLocal,
        SourceSpec::Remote { .. } => if staging_exists && !force_refetch {
            AcquireDecision::ReuseStaging
        } else {
            AcquireDecision::Refetch
        },
    }
}

/// Decides how to acquire one source tree.
pub fn acquire_decision(source: &SourceSpec, force_refetch: bool, staging_exists: bool) -> (d:
    AcquireDecision)
    ensures
        d == spec_acquire_decision(*source, force_refetch, staging_exists),
{
    match source {
        SourceSpec::Local { .. } => AcquireDecision::UseLocal,
        SourceSpec::Remote { .. } => {
            if staging_exists && !force_refetch {
                AcquireDecision::ReuseStaging
            } else {
                AcquireDecision::Refetch
            }
        },
    }
}

/// Law: re-running acquisition over an already-populated staging tree with
/// `force_refetch` off reuses the tree — no removal and no network action —
/// so repeated invocations are cheap once the tree exists.
pub proof fn lemma_acquire_idempotent(source: SourceSpec)
    requires
        source is Remote,
    ensures
        spec_acquire_decision(source, false, true) == AcquireDecision::ReuseStaging,
{
}

/// Law: with `force_refetch` on, a remote source is always removed and
/// re-cloned, whatever state the staging tree was in.
pub proof fn lemma_force_always_refetches(source: SourceSpec, staging_exists: bool)
    requires
        source is Remote,
    ensures
        spec_acquire_decision(source, true, staging_exists) == AcquireDecision::Refetch,
{
}

/// Law: a local source is used as given, whatever the flags say.
pub proof fn lemma_local_untouched(path: Seq<char>, force_refetch: bool, staging_exists: bool)
    ensures
        forall|source: SourceSpec|
            source is Local ==> spec_acquire_decision(source, force_refetch, staging_exists)
                == AcquireDecision::UseLocal,
{
}

/// Where the bounded clone retry stands after one more attempt.
#[derive(Clone, Copy, Debug, PartialEq, Eq, Structural)]
pub enum CloneProgress {
    /// The attempt exited zero; acquisition moves on. No further attempt is
    /// made.
    Succeeded,
    /// The attempt failed but attempts remain: re-invoke the same command.
    Retry,
    /// The final allowed attempt failed: acquisition fails.
    Unavailable,
}

/// The retry decision after `attempts_made` attempts, the latest of which
/// exited zero iff `exit_ok`.
pub open spec fn spec_clone_step(attempts_made: int, exit_ok: bool) -> CloneProgress {
    if exit_ok {
        CloneProgress::Succeeded
    } else if attempts_made < MAX_CLONE_ATTEMPTS as int {
        CloneProgress::Retry
    } else {
        CloneProgress::Unavailable
    }
}

/// Advances the bounded clone retry by one observed exit status.
///
/// Success is solely "process exited zero"; no content validation. A failure
/// on the final allowed attempt surfaces as `Unavailable`.
pub fn clone_step(attempts_made: u8, exit_ok: bool) -> (r: CloneProgress)
    requires
        1 <= attempts_made <= MAX_CLONE_ATTEMPTS,
    ensures
        r == spec_clone_step(attempts_made as int, exit_ok),
{
    if exit_ok {
        CloneProgress::Succeeded
    } else if attempts_made < MAX_CLONE_ATTEMPTS {
        CloneProgress::Retry
    } else {
        CloneProgress::Unavailable
    }
}

/// The number of clone attempts a whole retry run makes, given the exit
/// statuses the successive attempts would see. Attempt `k` consults
/// `exits[k - 1]`; the run stops at the first success or at the bound.
pub open spec fn clone_attempts_from(exits: Seq<bool>, attempts_made: int) -> int
    decreases MAX_CLONE_ATTEMPTS as int - attempts_made,
{
    if attempts_made < 0 || attempts_made >= MAX_CLONE_ATTEMPTS as int {
        MAX_CLONE_ATTEMPTS as int
    } else {
        match spec_clone_step(attempts_made + 1, exits[attempts_made]) {
            CloneProgress::Succeeded => attempts_made + 1,
            CloneProgress::Retry => clone_attempts_from(exits, attempts_made + 1),
            CloneProgress::Unavailable => attempts_made + 1,
        }
    }
}

/// The number of clone attempts a whole retry run makes.
pub open spec fn clone_attempts(exits: Seq<bool>) -> int {
    clone_attempts_from(exits, 0)
}

/// Whether the whole retry run ends in a successful clone.
pub open spec fn clone_succeeds(exits: Seq<bool>) -> bool {
    exits[clone_attempts(exits) - 1]
}

/// The result the whole retry run surfaces.
pub open spec fn clone_result(exits: Seq<bool>) -> Result<(), InstallError> {
    if clone_succeeds(exits) {
        Ok(())
    } else {
        Err(InstallError::SourceUnavailable)
    }
}

/// Law: the clone retry ceases after at most three attempts and surfaces
/// `SourceUnavailable` exactly when the first three attempts all fail; every
/// attempt before the last one failed, and a success ends the run at once —
/// in particular, a success on the second attempt never makes a third.
pub proof fn lemma_clone_retry(exits: Seq<bool>)
    requires
        exits.len() >= MAX_CLONE_ATTEMPTS,
    ensures
        1 <= clone_attempts(exits) <= MAX_CLONE_ATTEMPTS,
        clone_succeeds(exits) <==> (exits[0] || exits[1] || exits[2]),
        clone_result(exits) == Err::<(), InstallError>(InstallError::SourceUnavailable) <==> (
        !exits[0] && !exits[1] && !exits[2]),
        forall|i: int| 0 <= i < clone_attempts(exits) - 1 ==> !exits[i],
        exits[0] ==> clone_attempts(exits) == 1,
        !exits[0] && exits[1] ==> clone_attempts(exits) == 2 && clone_succeeds(exits),
        !exits[0] && !exits[1] && !exits[2] ==> clone_attempts(exits) == MAX_CLONE_ATTEMPTS,
{
    reveal_with_fuel(clone_attempts_from, 5);
    if exits[0] {
        assert(clone_attempts(exits) == 1);
    } else if exits[1] {
        assert(clone_attempts(exits) == 2);
    } else if exits[2] {
        assert(clone_attempts(exits) == 3);
    } else {
        assert(clone_attempts(exits) == 3);
    }
}

} // verus!
