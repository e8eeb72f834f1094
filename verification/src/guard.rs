//! The busy flag of a shared slot.

use vstd::prelude::*;

verus! {

/// The failure of [`ReentrancyGuard::acquire`]: the flag was taken already.
#[derive(Clone, Copy, PartialEq, Eq, Structural, Debug)]
pub struct Busy;

/// A flag that is either free or held. It does not queue and it does not
/// block: taking a held flag fails at once.
pub struct ReentrancyGuard {
    held: bool,
}

impl View for ReentrancyGuard {
    type V = bool;

    /// `true` while the flag is held.
    closed spec fn view(&self) -> bool {
        self.held
    }
}

impl ReentrancyGuard {
    /// A free flag.
    pub fn new() -> (guard: Self)
        ensures
            !guard@,
    {
        ReentrancyGuard { held: false }
    }

    /// Test-and-set. Succeeds exactly when the flag was free, and then holds
    /// it; a held flag stays held and the call fails.
    pub fn acquire(&mut self) -> (res: Result<(), Busy>)
        ensures
            res is Ok <==> !old(self)@,
            final(self)@,
    {
        let mut was_held = true;
        core::mem::swap(&mut self.held, &mut was_held);
        if was_held {
            Err(Busy)
        } else {
            Ok(())
        }
    }

    /// Frees the flag, whatever it was.
    pub fn release(&mut self)
        ensures
            !final(self)@,
    {
        self.held = false;
    }

    /// Whether the flag is held.
    pub fn is_held(&self) -> (held: bool)
        ensures
            held == self@,
    {
        self.held
    }
}

} // verus!
