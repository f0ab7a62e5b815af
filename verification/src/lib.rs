//! Fan-out/fan-in actor computation patterns with a completion barrier.
//!
//! Two shapes of the pattern are modelled and verified here:
//! a self-similar recursive tree of worker units that computes an aggregate
//! value bottom-up while validating a power-of-two invariant, and a flat pool
//! of workers whose completion is observed by a counting collector that fires
//! a one-shot completion signal exactly once. The surrounding actor runtime
//! (unit creation, mailbox delivery, stopping) is an external collaborator:
//! each unit's decision logic is a verified step function from state and
//! message to next state and action, and the driver around it performs the
//! actions.

pub mod chain;
pub mod pool;
pub mod tree;
