//! The admission gate: a counting gate that bounds how many generations run
//! at one time.

use vstd::prelude::*;

verus! {

/// A ticket for one occupied slot of an [`AdmissionGate`]. It is handed out by
/// [`AdmissionGate::try_acquire`] and consumed by [`AdmissionGate::release`],
/// so that a holder gives its slot back once.
pub struct Permit {
    _slot: (),
}

/// What a gate is, mathematically: how many slots it has, and how many are
/// taken.
pub struct GateView {
    pub capacity: nat,
    pub in_flight: nat,
}

impl GateView {
    /// No more slots are taken than there are.
    pub open spec fn bounded(self) -> bool {
        self.in_flight <= self.capacity
    }

    /// Whether a caller that arrives now is admitted.
    pub open spec fn admits(self) -> bool {
        self.in_flight < self.capacity
    }

    /// What remains after a caller has arrived: one more slot is taken if the
    /// caller was admitted, and nothing has changed if it was not.
    pub open spec fn arrive(self) -> GateView {
        if self.admits() {
            GateView { capacity: self.capacity, in_flight: self.in_flight + 1 }
        } else {
            self
        }
    }

    /// What remains after a holder has given its slot back.
    pub open spec fn leave(self) -> GateView {
        if self.in_flight > 0 {
            GateView { capacity: self.capacity, in_flight: (self.in_flight - 1) as nat }
        } else {
            self
        }
    }

    /// What remains after a run of arrivals and departures: each step of
    /// `steps` is an arrival where it is `true`, and a departure where it is
    /// `false`.
    pub open spec fn run(self, steps: Seq<bool>) -> GateView
        decreases steps.len(),
    {
        if steps.len() == 0 {
            self
        } else if steps.last() {
            self.run(steps.drop_last()).arrive()
        } else {
            self.run(steps.drop_last()).leave()
        }
    }

    /// What remains after `n` callers have arrived one after another.
    pub open spec fn arrive_n(self, n: nat) -> GateView
        decreases n,
    {
        if n == 0 {
            self
        } else {
            self.arrive_n((n - 1) as nat).arrive()
        }
    }
}

/// A gate with a fixed number of slots. A caller that finds no slot free is
/// not admitted; it waits for a [`release`](AdmissionGate::release) and tries
/// again.
pub struct AdmissionGate {
    capacity: usize,
    in_flight: usize,
}

impl View for AdmissionGate {
    type V = GateView;

    closed spec fn view(&self) -> GateView {
        GateView { capacity: self.capacity as nat, in_flight: self.in_flight as nat }
    }
}

impl AdmissionGate {
    /// The invariant: no more slots are taken than there are.
    #[verifier::type_invariant]
    pub open spec fn wf(&self) -> bool {
        self@.bounded()
    }

    /// A gate with `capacity` slots, all free.
    pub fn new(capacity: usize) -> (r: Self)
        ensures
            r.wf(),
            r@ == (GateView { capacity: capacity as nat, in_flight: 0 }),
    {
        AdmissionGate { capacity, in_flight: 0 }
    }

    /// How many slots there are.
    pub fn capacity(&self) -> (r: usize)
        ensures
            r == self@.capacity,
    {
        self.capacity
    }

    /// How many slots are taken.
    pub fn in_flight(&self) -> (r: usize)
        ensures
            r == self@.in_flight,
            self@.bounded(),
    {
        proof {
            use_type_invariant(self);
        }
        self.in_flight
    }

    /// How many slots are free.
    pub fn available(&self) -> (r: usize)
        ensures
            r == self@.capacity - self@.in_flight,
    {
        proof {
            use_type_invariant(self);
        }
        self.capacity - self.in_flight
    }

    /// Takes a slot if one is free. Returns the permit for it, or `None`, with
    /// nothing changed, where every slot is taken.
    pub fn try_acquire(&mut self) -> (r: Option<Permit>)
        ensures
            final(self).wf(),
            r is Some == old(self)@.admits(),
            final(self)@ == old(self)@.arrive(),
            final(self)@.bounded(),
    {
        proof {
            use_type_invariant(&*self);
        }
        if self.in_flight < self.capacity {
            self.in_flight = self.in_flight + 1;
            Some(Permit { _slot: () })
        } else {
            None
        }
    }

    /// Gives the slot of `permit` back.
    pub fn release(&mut self, permit: Permit)
        ensures
            final(self).wf(),
            final(self)@ == old(self)@.leave(),
            final(self)@.bounded(),
    {
        proof {
            use_type_invariant(&*self);
        }
        if self.in_flight > 0 {
            self.in_flight = self.in_flight - 1;
        }
    }
}

/// A gate never holds more admitted callers than it has slots.
pub proof fn law_gate_bounded(gate: AdmissionGate)
    requires
        gate.wf(),
    ensures
        gate@.bounded(),
{
}

/// Arrivals and departures keep a gate within its bound, and never change the
/// number of its slots.
pub proof fn law_steps_keep_bound(gate: GateView)
    requires
        gate.bounded(),
    ensures
        gate.arrive().bounded(),
        gate.leave().bounded(),
        gate.arrive().capacity == gate.capacity,
        gate.leave().capacity == gate.capacity,
{
}

/// Whatever arrives and leaves, in whatever order: a gate that starts within
/// its bound stays within it, with the slots it had.
pub proof fn law_gate_bounded_on_every_path(gate: GateView, steps: Seq<bool>)
    requires
        gate.bounded(),
    ensures
        gate.run(steps).bounded(),
        gate.run(steps).capacity == gate.capacity,
    decreases steps.len(),
{
    if steps.len() > 0 {
        law_gate_bounded_on_every_path(gate, steps.drop_last());
    }
}

/// Of `n` callers that arrive at a gate with all slots free, the first
/// `capacity` are admitted and the others are not: after them
/// `min(n, capacity)` slots are taken.
pub proof fn law_first_callers_admitted(gate: GateView, n: nat)
    requires
        gate.in_flight == 0,
    ensures
        gate.arrive_n(n).capacity == gate.capacity,
        gate.arrive_n(n).in_flight == if n <= gate.capacity {
            n
        } else {
            gate.capacity
        },
        gate.arrive_n(n).admits() == (n < gate.capacity),
    decreases n,
{
    if n > 0 {
        law_first_callers_admitted(gate, (n - 1) as nat);
    }
}

/// A caller that finds every slot taken is not admitted and changes nothing;
/// once one holder has left, the next caller is admitted.
pub proof fn law_full_gate_admits_after_release(gate: GateView)
    requires
        gate.bounded(),
        gate.capacity > 0,
        gate.in_flight == gate.capacity,
    ensures
        !gate.admits(),
        gate.arrive() == gate,
        gate.leave().admits(),
        gate.leave().arrive() == gate,
{
}

} // verus!
