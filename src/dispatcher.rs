//! The fixed per-tick pipeline of systems.

use vstd::prelude::*;
use crate::components::ComponentKind;
use crate::printers::{
    EntityState, PositionRow, PrintPositionsSystem, PrintStateSystem, read_fault, state_fault,
    storage_positions, storage_states,
};
use crate::storage::{ComponentStorage, StorageError, StorageView};
use crate::systems::{
    ApplyAccelerationSystem, ApplyFrictionSystem, ApplyVelocitySystem, tick_outcome,
};

verus! {

/// What one tick reports: the entity states before the systems ran, and the
/// positions after.
pub struct TickReport {
    pub before: Vec<EntityState>,
    pub positions: Vec<PositionRow>,
}

/// Owns the systems and runs them, in a fixed order, once per tick.
pub struct Dispatcher {
    print_state: PrintStateSystem,
    print_positions: PrintPositionsSystem,
    apply_acceleration: ApplyAccelerationSystem,
    apply_friction: ApplyFrictionSystem,
    apply_velocity: ApplyVelocitySystem,
}

/// One tick on a storage: the storage after every step, or the first fault
/// together with the storage as the steps before it left it.
pub open spec fn tick_all(s0: StorageView) -> Result<StorageView, (StorageError, StorageView)> {
    if state_fault(s0) is Some {
        Err((state_fault(s0)->0, s0))
    } else {
        match tick_outcome(ApplyAccelerationSystem, s0) {
            Err(e) => Err((e, s0)),
            Ok(s1) => match tick_outcome(ApplyFrictionSystem, s1) {
                Err(e) => Err((e, s1)),
                Ok(s2) => match tick_outcome(ApplyVelocitySystem, s2) {
                    Err(e) => Err((e, s2)),
                    Ok(s3) => if read_fault(s3, ComponentKind::Position) is Some {
                        Err((read_fault(s3, ComponentKind::Position)->0, s3))
                    } else {
                        Ok(s3)
                    },
                },
            },
        }
    }
}

impl Dispatcher {
    pub fn new() -> (r: Dispatcher) {
        Dispatcher {
            print_state: PrintStateSystem,
            print_positions: PrintPositionsSystem,
            apply_acceleration: ApplyAccelerationSystem,
            apply_friction: ApplyFrictionSystem,
            apply_velocity: ApplyVelocitySystem,
        }
    }

    /// Runs one tick: reports the entity states, applies acceleration,
    /// friction and velocity in that order, and reports the positions. A
    /// fault stops the tick where it occurs.
    pub fn dispatch(&self, storage: &mut ComponentStorage) -> (r: Result<TickReport, StorageError>)
        requires
            old(storage).wf(),
        ensures
            final(storage).wf(),
            match tick_all(old(storage)@) {
                Ok(s) => r is Ok && final(storage)@ == s && r->Ok_0.before@ == storage_states(old(storage)@)
                    && r->Ok_0.positions@ == storage_positions(s),
                Err((e, s)) => r is Err && r->Err_0 == e && final(storage)@ == s,
            },
    {
        let before = self.print_state.tick(storage)?;
        self.apply_acceleration.tick(storage)?;
        self.apply_friction.tick(storage)?;
        self.apply_velocity.tick(storage)?;
        let positions = self.print_positions.tick(storage)?;
        Ok(TickReport { before, positions })
    }
}

} // verus!
