//! The recursive binary-tree variant of the fan-out/fan-in pattern.
//!
//! A worker unit receives a task message carrying a "spread" value: the
//! remaining recursion depth. On the acknowledge sentinel it replies at once
//! and terminates; on a larger task it fans out to exactly two children, waits
//! for both child results, aggregates them, reports to its target and
//! terminates. The actor runtime that delivers messages is an external
//! collaborator: [`TreeUnit::recv`] only decides, returning a [`TreeAction`]
//! for the driver to perform.

use vstd::prelude::*;
use vstd::arithmetic::power2::pow2;
use vstd::arithmetic::power2::lemma_pow2_unfold;
use vstd::arithmetic::power2::lemma2_to64;
use vstd::arithmetic::power2::lemma_pow2_strictly_increases;

verus! {

/// The task value that encodes the termination/acknowledge sentinel: a unit
/// receiving it replies immediately instead of fanning out.
pub const ACK_SENTINEL: usize = 1;

/// One worker unit of the recursive tree computation.
///
/// `has_parent` records whether the unit was constructed with an explicit
/// domain parent as its reporting target; without one, it reports to its
/// runtime-level creator instead. `r1 == 0` means the first child result has
/// not arrived yet (child results are always at least the sentinel value 1).
pub struct TreeUnit {
    /// Whether an explicit domain parent was supplied at construction.
    pub has_parent: bool,
    /// The first child result, or 0 while unset.
    pub r1: usize,
    /// The task value recorded when the unit fanned out.
    pub spread: usize,
    /// Whether the unit has fanned out and now expects child results.
    pub receiving: bool,
    /// Whether the unit has produced its final output and asked to stop.
    pub terminated: bool,
}

/// What a unit asks its driver to do after processing one message.
#[derive(Clone, Copy, Debug, PartialEq, Eq, Structural)]
pub enum TreeAction {
    /// Reply `reply` to the sender of the task message, then stop the unit.
    AckSender { reply: usize },
    /// Create two children (the unit's name suffixed `-1` and `-2`) and send
    /// each the task `task`; no reply yet.
    SpawnChildren { task: usize },
    /// The first child result was stored; nothing to send yet.
    StoreFirst,
    /// Send `result` to the unit's domain parent, then stop the unit.
    ReportToParent { result: usize },
    /// Send `result` to the unit's runtime-level creator, then stop the unit.
    ReportToCreator { result: usize },
}

impl TreeUnit {
    /// A unit with no domain parent: it will report to its runtime-level
    /// creator.
    pub fn new() -> (u: TreeUnit)
        ensures
            !u.has_parent,
            u.r1 == 0,
            u.spread == 0,
            !u.receiving,
            !u.terminated,
    {
        TreeUnit { has_parent: false, r1: 0, spread: 0, receiving: false, terminated: false }
    }

    /// A unit constructed with an explicit domain parent as its reporting
    /// target.
    pub fn with_parent() -> (u: TreeUnit)
        ensures
            u.has_parent,
            u.r1 == 0,
            u.spread == 0,
            !u.receiving,
            !u.terminated,
    {
        TreeUnit { has_parent: true, r1: 0, spread: 0, receiving: false, terminated: false }
    }

    /// Process one mailbox message and decide the next action.
    ///
    /// In the spawning state the sentinel is acknowledged at once and the unit
    /// terminates; any larger task makes it fan out to two children with the
    /// task decreased by one. In the receiving state the first message is
    /// stored, and the second completes the aggregation: `r1 + r2 + 2`
    /// reported to the domain parent when one exists, `r1 + r2 + 1` to the
    /// runtime-level creator otherwise.
    pub fn recv(&mut self, msg: usize) -> (action: TreeAction)
        requires
            !old(self).terminated,
            msg >= 1,
            old(self).receiving && old(self).r1 != 0 ==> old(self).r1 + msg + 2 <= usize::MAX,
        ensures
            final(self).has_parent == old(self).has_parent,
            !old(self).receiving && msg == ACK_SENTINEL ==> {
                &&& action == (TreeAction::AckSender { reply: ACK_SENTINEL })
                &&& final(self).terminated
                &&& final(self).receiving == old(self).receiving
                &&& final(self).r1 == old(self).r1
                &&& final(self).spread == old(self).spread
            },
            !old(self).receiving && msg != ACK_SENTINEL ==> {
                &&& action == (TreeAction::SpawnChildren { task: (msg - 1) as usize })
                &&& !final(self).terminated
                &&& final(self).receiving
                &&& final(self).r1 == old(self).r1
                &&& final(self).spread == msg
            },
            old(self).receiving && old(self).r1 == 0 ==> {
                &&& action == TreeAction::StoreFirst
                &&& !final(self).terminated
                &&& final(self).receiving
                &&& final(self).r1 == msg
                &&& final(self).spread == old(self).spread
            },
            old(self).receiving && old(self).r1 != 0 && old(self).has_parent ==> {
                &&& action == (TreeAction::ReportToParent {
                    result: (old(self).r1 + msg + 2) as usize,
                })
                &&& final(self).terminated
                &&& final(self).receiving
                &&& final(self).r1 == old(self).r1
                &&& final(self).spread == old(self).spread
            },
            old(self).receiving && old(self).r1 != 0 && !old(self).has_parent ==> {
                &&& action == (TreeAction::ReportToCreator {
                    result: (old(self).r1 + msg + 1) as usize,
                })
                &&& final(self).terminated
                &&& final(self).receiving
                &&& final(self).r1 == old(self).r1
                &&& final(self).spread == old(self).spread
            },
    {
        if self.receiving {
            if self.r1 == 0 {
                self.r1 = msg;
                TreeAction::StoreFirst
            } else {
                let r2 = msg;
                self.terminated = true;
                if self.has_parent {
                    TreeAction::ReportToParent { result: self.r1 + r2 + 2 }
                } else {
                    TreeAction::ReportToCreator { result: self.r1 + r2 + 1 }
                }
            }
        } else {
            if msg == ACK_SENTINEL {
                self.terminated = true;
                TreeAction::AckSender { reply: ACK_SENTINEL }
            } else {
                self.spread = msg;
                self.receiving = true;
                TreeAction::SpawnChildren { task: msg - 1 }
            }
        }
    }
}

/// The value a unit without a domain parent reports to its runtime-level
/// creator when its subtree is run on task `s`: the acknowledge sentinel at
/// the base, and `r1 + r2 + 1` above it, where both children run on `s - 1`.
pub open spec fn creator_report(s: nat) -> nat
    decreases s,
{
    if s <= 1 {
        1
    } else {
        2 * creator_report((s - 1) as nat) + 1
    }
}

/// A creator report is one short of a power of two: a subtree run on task
/// `s >= 1` reports `2^s - 1` to its runtime-level creator.
pub proof fn lemma_creator_report_value(s: nat)
    requires
        s >= 1,
    ensures
        creator_report(s) == pow2(s) - 1,
    decreases s,
{
    if s == 1 {
        lemma2_to64();
    } else {
        lemma_creator_report_value((s - 1) as nat);
        lemma_pow2_unfold(s);
    }
}

/// Law: every Receiving-state completion at a unit with a domain parent
/// validates the binary-tree aggregation. A unit enters the receiving state
/// only on a task `s >= 2` (the sentinel 1 terminates it by the acknowledge
/// path without fanning out), its two children each run on `s - 1` and report
/// `creator_report(s - 1)`, and the aggregate `2 + r1 + r2` equals `2^s`.
pub proof fn lemma_parented_completion_is_pow2(s: nat)
    requires
        s >= 2,
    ensures
        2 + creator_report((s - 1) as nat) + creator_report((s - 1) as nat) == pow2(s),
{
    lemma_creator_report_value((s - 1) as nat);
    lemma_pow2_unfold(s);
}

/// Run one unit of the recursive tree protocol to completion, standing in
/// for the actor runtime: the unit's fan-out actions are performed by
/// recursing on both children and feeding their reports back into the unit's
/// own mailbox.
///
/// A unit with a domain parent acknowledges the sentinel task with 1 and
/// validates `2^task` on any larger task; a unit without one reports
/// `creator_report(task)` to its runtime-level creator.
pub fn run_unit(has_parent: bool, task: usize) -> (r: usize)
    requires
        task >= 1,
        pow2(task as nat) <= usize::MAX,
    ensures
        has_parent && task == 1 ==> r == 1,
        has_parent && task >= 2 ==> r == pow2(task as nat),
        !has_parent ==> r == creator_report(task as nat),
    decreases task,
{
    let mut unit = if has_parent {
        TreeUnit::with_parent()
    } else {
        TreeUnit::new()
    };
    let action = unit.recv(task);
    match action {
        TreeAction::AckSender { reply } => reply,
        TreeAction::SpawnChildren { task: child_task } => {
            proof {
                lemma_pow2_strictly_increases(child_task as nat, task as nat);
                lemma_creator_report_value(child_task as nat);
                lemma_pow2_unfold(task as nat);
            }
            let r1 = run_unit(false, child_task);
            let r2 = run_unit(false, child_task);
            let first = unit.recv(r1);
            let second = unit.recv(r2);
            match second {
                TreeAction::ReportToParent { result } => result,
                TreeAction::ReportToCreator { result } => result,
                _ => vstd::pervasive::unreached(),
            }
        },
        _ => vstd::pervasive::unreached(),
    }
}

} // verus!
