//! A counting gate that bounds how many network operations run at once.

use vstd::prelude::*;

verus! {

/// The capacity used where none is configured.
pub const DEFAULT_CAPACITY: usize = 256;

/// A fixed number of units, each held by at most one running operation.
#[derive(Debug)]
pub struct ConcurrencyGate {
    capacity: usize,
    in_flight: usize,
}

impl ConcurrencyGate {
    #[verifier::type_invariant]
    spec fn within_capacity(self) -> bool {
        self.in_flight <= self.capacity
    }

    /// The number of units in all.
    pub closed spec fn spec_capacity(self) -> nat {
        self.capacity as nat
    }

    /// The number of units that are held.
    pub closed spec fn spec_in_flight(self) -> nat {
        self.in_flight as nat
    }

    /// A gate with `capacity` units, none of them held.
    pub fn new(capacity: usize) -> (gate: Self)
        ensures
            gate.spec_capacity() == capacity,
            gate.spec_in_flight() == 0,
    {
        ConcurrencyGate { capacity, in_flight: 0 }
    }

    /// A gate with `DEFAULT_CAPACITY` units.
    pub fn with_default_capacity() -> (gate: Self)
        ensures
            gate.spec_capacity() == 256,
            gate.spec_in_flight() == 0,
    {
        ConcurrencyGate::new(DEFAULT_CAPACITY)
    }

    /// The number of units in all.
    pub fn capacity(&self) -> (n: usize)
        ensures
            n == self.spec_capacity(),
    {
        self.capacity
    }

    /// The number of units that are held: at every moment no more than the
    /// capacity.
    pub fn in_flight(&self) -> (n: usize)
        ensures
            n == self.spec_in_flight(),
            self.spec_in_flight() <= self.spec_capacity(),
    {
        proof {
            use_type_invariant(self);
        }
        self.in_flight
    }

    /// How many more operations may start.
    pub fn available(&self) -> (n: usize)
        ensures
            n == self.spec_capacity() - self.spec_in_flight(),
    {
        proof {
            use_type_invariant(self);
        }
        self.capacity - self.in_flight
    }

    /// Takes one unit if one is free, and says whether it did. An operation
    /// starts only after this has returned `true`.
    pub fn try_acquire(&mut self) -> (granted: bool)
        ensures
            granted == (old(self).spec_in_flight() < old(self).spec_capacity()),
            final(self).spec_capacity() == old(self).spec_capacity(),
            final(self).spec_in_flight() == old(self).spec_in_flight() + if granted {
                1nat
            } else {
                0nat
            },
            final(self).spec_in_flight() <= final(self).spec_capacity(),
    {
        proof {
            use_type_invariant(&*self);
        }
        if self.in_flight < self.capacity {
            self.in_flight = self.in_flight + 1;
            true
        } else {
            false
        }
    }

    /// Gives one unit back, whatever became of the operation that held it.
    /// Returns `false`, and changes nothing, where no unit is held.
    pub fn release(&mut self) -> (released: bool)
        ensures
            released == (old(self).spec_in_flight() > 0),
            final(self).spec_capacity() == old(self).spec_capacity(),
            final(self).spec_in_flight() == old(self).spec_in_flight() - if released {
                1int
            } else {
                0int
            },
            final(self).spec_in_flight() <= final(self).spec_capacity(),
    {
        proof {
            use_type_invariant(&*self);
        }
        if self.in_flight > 0 {
            self.in_flight = self.in_flight - 1;
            true
        } else {
            false
        }
    }
}

} // verus!
