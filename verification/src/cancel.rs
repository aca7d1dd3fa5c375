//! The cancel flag: one boolean that an interrupt handler may set while a run
//! is under way, and that the host polls for the engine.

use std::sync::atomic::AtomicBool;
use std::sync::atomic::Ordering;
use std::sync::Arc;
use vstd::prelude::*;

verus! {

/// A flag shared between a run and whoever may cancel it. It is made afresh
/// for each run and is never cleared.
pub struct CancelFlag {
    flag: Arc<AtomicBool>,
}

/// Calls `Arc::clone`, which makes another pointer to the allocation that
/// `handle` points to.
///
/// Trusted: what the new pointer holds is what `handle` holds.
#[verifier::external_body]
fn another_pointer(handle: &Arc<AtomicBool>) -> (other: Arc<AtomicBool>)
    ensures
        other == *handle,
{
    handle.clone()
}

impl CancelFlag {
    /// Whether `self` and `other` are handles on one and the same flag.
    pub closed spec fn same_flag(&self, other: &CancelFlag) -> bool {
        self.flag == other.flag
    }

    /// A flag that is not set.
    pub fn new() -> (flag: CancelFlag) {
        CancelFlag { flag: Arc::new(AtomicBool::new(false)) }
    }

    /// Another handle on the same flag, for the party that may cancel.
    pub fn share(&self) -> (other: CancelFlag)
        ensures
            other.same_flag(self),
            self.same_flag(&other),
    {
        CancelFlag { flag: another_pointer(&self.flag) }
    }

    /// Sets the flag.
    pub fn set(&self) {
        self.flag.store(true, Ordering::SeqCst);
    }

    /// Reads the flag. Nothing is promised of the answer: another party may
    /// set the flag at any moment.
    pub fn is_set(&self) -> (set: bool) {
        self.flag.load(Ordering::SeqCst)
    }
}

} // verus!
