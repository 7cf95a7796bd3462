//! Cooperative shutdown of a running operation.

use std::sync::atomic::AtomicBool;
use std::sync::Arc;

use vstd::prelude::*;

verus! {

/// A flag as it is made, up.
pub open spec fn flag_raised(flag: AtomicBool) -> bool {
    call_ensures(AtomicBool::new, (true,), flag)
}

/// One read of a flag found it up or down.
pub open spec fn flag_read(flag: AtomicBool, up: bool) -> bool {
    call_ensures(AtomicBool::load, (&flag, std::sync::atomic::Ordering::Acquire), up)
}

/// A flag was taken down.
pub open spec fn flag_lowered(flag: AtomicBool) -> bool {
    call_ensures(AtomicBool::store, (&flag, false, std::sync::atomic::Ordering::Release), ())
}

/// Cooperative cancellation state for one active foreground or background operation.
///
/// The control shares its owner's shutdown flag, or has no owner. Long-running handlers
/// should clone it as needed and check [`OperationControl::is_shutdown_requested`] at bounded
/// intervals before claiming more work and between durable checkpoints.
///
/// An owner's flag may change between any two reads: stated is that the answer is made of
/// what the call itself read, not which value that is.
#[derive(Clone, Debug)]
pub struct OperationControl {
    /// Up while the owner runs; a control without an owner has no flag.
    pub running: Option<Arc<AtomicBool>>,
}

impl OperationControl {
    /// Nobody can stop what this control watches.
    pub open spec fn is_independent(&self) -> bool {
        self.running is None
    }

    /// Creates an independent control for a short-lived direct operation.
    ///
    /// This control begins in the running state and is not connected to daemon process
    /// signals or any [`ShutdownHandle`].
    pub fn running() -> (control: Self)
        ensures
            control.is_independent(),
    {
        OperationControl { running: None }
    }

    /// Returns whether shutdown was requested through this control's associated owner.
    pub fn is_shutdown_requested(&self) -> (requested: bool)
        ensures
            self.is_independent() ==> !requested,
            match self.running {
                Some(flag) => flag_read(*flag, !requested),
                None => !requested,
            },
    {
        match &self.running {
            Some(flag) => !flag.load(std::sync::atomic::Ordering::Acquire),
            None => false,
        }
    }
}

/// Process-local graceful shutdown control.
#[derive(Clone, Debug)]
pub struct ShutdownHandle {
    pub running: Arc<AtomicBool>,
}

impl ShutdownHandle {
    /// Stops the accept loop after the active request completes.
    pub fn shutdown(&self)
        ensures
            flag_lowered(*self.running),
    {
        self.running.store(false, std::sync::atomic::Ordering::Release)
    }
}

} // verus!
