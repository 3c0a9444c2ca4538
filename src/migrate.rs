use vstd::prelude::*;

use crate::game::{lemma_save_restore_round_trip, Instance, RestoreError, SaveError};

verus! {

/// How a state migration across a reload ended. A skipped migration is an
/// expected outcome of a guest rebuild, never a fault of the host.
#[derive(Clone, Copy, Debug, PartialEq, Eq, Structural)]
pub enum MigrationOutcome {
    /// The incoming guest now holds the outgoing guest's state.
    Migrated,
    /// The outgoing guest could not save; the incoming guest was not touched.
    SaveFailed,
    /// The incoming guest rejected the blob and is at its default state.
    RestoreFailed,
}

/// The next step of a migration once `save` has returned.
pub enum MigrationStep {
    /// Hand this blob, byte for byte, to `restore` on the incoming guest.
    Restore(Vec<u8>),
    /// The migration is over: nothing is restored and the incoming guest
    /// stays at its default state.
    Done(MigrationOutcome),
}

/// Decides what follows `save` on the outgoing guest: a saved blob goes to
/// `restore` untouched; a failed save ends the migration.
pub fn step_after_save(saved: Result<Vec<u8>, SaveError>) -> (r: MigrationStep)
    ensures
        saved is Ok ==> (r matches MigrationStep::Restore(b) && b@ == saved->Ok_0@),
        saved is Err ==> r == MigrationStep::Done(MigrationOutcome::SaveFailed),
{
    match saved {
        Ok(blob) => MigrationStep::Restore(blob),
        Err(_) => MigrationStep::Done(MigrationOutcome::SaveFailed),
    }
}

/// Names the outcome of a migration from what `restore` on the incoming
/// guest returned.
pub fn outcome_of_restore(restored: Result<(), RestoreError>) -> (r: MigrationOutcome)
    ensures
        restored is Ok ==> r == MigrationOutcome::Migrated,
        restored is Err ==> r == MigrationOutcome::RestoreFailed,
{
    match restored {
        Ok(()) => MigrationOutcome::Migrated,
        Err(_) => MigrationOutcome::RestoreFailed,
    }
}

/// Carries the state of `outgoing` into `incoming`: saves the outgoing guest
/// and, when that succeeds, restores the blob, untouched, into the incoming
/// one. This guest always saves, and a blob it saved always restores, so the
/// state is carried over exactly.
pub fn migrate(outgoing: &Instance, incoming: &mut Instance) -> (r: MigrationOutcome)
    ensures
        r == MigrationOutcome::Migrated,
        final(incoming)@ == outgoing@,
{
    let saved: Result<Vec<u8>, SaveError> = outgoing.save();
    proof {
        lemma_save_restore_round_trip(outgoing@, Seq::empty());
    }
    match step_after_save(saved) {
        MigrationStep::Restore(blob) => outcome_of_restore(incoming.restore(blob)),
        MigrationStep::Done(outcome) => outcome,
    }
}

} // verus!
