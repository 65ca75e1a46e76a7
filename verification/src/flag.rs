//! A flag that several threads share and that is raised at most once.

use std::sync::atomic::{AtomicBool, Ordering};
use std::sync::Arc;
use vstd::prelude::*;

verus! {

/// A shared flag that starts lowered and can only be raised. Every handle
/// made by `share` stands for the same flag, so what `is_raised` returns
/// depends on what the other holders have done; once it has returned `true`
/// it does so for good, because nothing lowers the flag.
#[derive(Debug)]
pub(crate) struct Latch {
    cell: Arc<AtomicBool>,
}

impl Latch {
    /// A fresh flag, lowered.
    pub(crate) fn new() -> (latch: Latch) {
        Latch { cell: Arc::new(AtomicBool::new(false)) }
    }

    /// Another handle to the same flag: the two stand for one cell, so that
    /// what one of them raises the other reads.
    pub(crate) fn share(&self) -> (other: Latch)
        ensures
            other == *self,
    {
        Latch { cell: self.cell.clone() }
    }

    /// Whether the flag has been raised.
    pub(crate) fn is_raised(&self) -> (raised: bool) {
        self.cell.load(Ordering::Relaxed)
    }

    /// Raises the flag.
    pub(crate) fn raise(&self) {
        self.cell.store(true, Ordering::Relaxed)
    }
}

} // verus!
