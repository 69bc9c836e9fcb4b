//! Observers of an agent run's events.
use vstd::prelude::*;

verus! {

/// An observer that ignores every event.
#[derive(Debug, Clone, Copy, Default)]
pub struct NoOpAgentObserver;

} // verus!
