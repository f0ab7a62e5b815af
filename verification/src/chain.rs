//! The creation-chain load benchmark's worker logic.
//!
//! Each unit of this benchmark processes exactly one message: on a positive
//! task it creates one successor unit (its own name suffixed `-`) and hands
//! it the task decreased by one, and in every case it stops itself
//! immediately after. A chain started with task `t >= 0` therefore runs
//! through exactly `t + 1` units.

use vstd::prelude::*;

verus! {

/// A worker unit of the creation chain. It keeps no state: its one decision
/// depends on the message alone.
pub struct ChainUnit {}

/// What a chain unit asks its driver to do after one message; the unit stops
/// itself in either case.
#[derive(Clone, Copy, Debug, PartialEq, Eq, Structural)]
pub enum ChainAction {
    /// Create one successor unit, send it `task`, then stop this unit.
    SpawnNext { task: i32 },
    /// Stop this unit without creating a successor.
    Stop,
}

impl ChainUnit {
    /// A fresh chain unit.
    pub fn new() -> (u: ChainUnit) {
        ChainUnit {}
    }

    /// Process one message: fan out to a single successor with the task
    /// decreased by one while the task is positive, and stop either way.
    pub fn recv(&self, msg: i32) -> (action: ChainAction)
        ensures
            msg > 0 ==> action == (ChainAction::SpawnNext { task: (msg - 1) as i32 }),
            msg <= 0 ==> action == ChainAction::Stop,
    {
        if msg > 0 {
            ChainAction::SpawnNext { task: msg - 1 }
        } else {
            ChainAction::Stop
        }
    }
}

/// Run one creation chain to completion, standing in for the actor runtime:
/// each spawn action is performed by handing the successor task back to a
/// fresh unit. Returns how many units processed a message: `task + 1` for a
/// non-negative task, and 1 (the starting unit alone) otherwise.
pub fn run_chain(task: i32) -> (units: u64)
    ensures
        task >= 0 ==> units == task + 1,
        task < 0 ==> units == 1,
{
    let mut current: i32 = task;
    let mut units: u64 = 1;
    loop
        invariant
            task >= 0 ==> 0 <= current <= task && units == task - current + 1,
            task < 0 ==> current == task && units == 1,
        decreases current,
    {
        let unit = ChainUnit::new();
        match unit.recv(current) {
            ChainAction::SpawnNext { task: next } => {
                units = units + 1;
                current = next;
            },
            ChainAction::Stop => {
                return units;
            },
        }
    }
}

} // verus!
