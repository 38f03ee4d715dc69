//! The shared cancellation signal: a process-wide boolean flag that an
//! external interrupt handler sets and that the dispatcher and the stream
//! relay read. It is a pure coordination primitive with no owner; a read
//! may race with a set on another thread, so nothing is promised about the
//! value a read returns.

use core::sync::atomic::AtomicBool;
use core::sync::atomic::Ordering;
use std::sync::Arc;
use vstd::prelude::*;

verus! {

/// A shared handle to the cancellation flag. Cloning yields another handle
/// to the same flag.
#[derive(Clone)]
pub struct SharedAbortSignal {
    flag: Arc<AtomicBool>,
}

impl SharedAbortSignal {
    /// A fresh signal, initially unset.
    pub fn new() -> Self {
        SharedAbortSignal { flag: Arc::new(AtomicBool::new(false)) }
    }

    /// Request that the current exchange be abandoned.
    pub fn set(&self) {
        self.flag.store(true, Ordering::SeqCst);
    }

    /// Withdraw a pending cancellation request.
    pub fn reset(&self) {
        self.flag.store(false, Ordering::SeqCst);
    }

    /// Whether a cancellation is pending at the moment of the read. Another
    /// thread may change the flag at any time, so no value is promised.
    pub fn aborted(&self) -> bool {
        self.flag.load(Ordering::SeqCst)
    }

    /// Another handle to the same flag.
    pub fn share(&self) -> (r: Self)
        ensures
            r == *self,
    {
        SharedAbortSignal { flag: self.flag.clone() }
    }
}

} // verus!
