//! Admission control: the counting gate that bounds how many invocations run
//! at the same time.

use vstd::prelude::*;

verus! {

/// How many invocations may run at once.
#[derive(Clone, Copy, Debug, PartialEq, Eq, Structural)]
pub enum ConcurrencyLimit {
    /// Every caller is admitted at once.
    Unbounded,
    /// At most this many invocations hold a slot at any time. The number is
    /// at least one.
    BoundedBy(usize),
}

/// Why a caller that asks for a slot gets none.
#[derive(Clone, Copy, Debug, PartialEq, Eq, Structural)]
pub enum Refusal {
    /// Every slot is taken: the caller waits for a release and asks again.
    MustWait,
    /// The admission gate is closed: the bridge is shutting down.
    Unavailable,
}

/// An admission slot, held by one invocation from the grant until it is
/// given back. Only a grant makes one, and giving it back uses it up.
#[derive(Debug)]
pub struct Permit {
    token: (),
}

/// The limit that an optional number of slots stands for: none means that no
/// limit is in force.
pub open spec fn limit_of(slots: Option<usize>) -> ConcurrencyLimit {
    match slots {
        Some(slots) => ConcurrencyLimit::BoundedBy(slots),
        None => ConcurrencyLimit::Unbounded,
    }
}

/// Whether an optional number of slots is a limit: a limit that is given is
/// a positive number.
pub open spec fn is_limit(slots: Option<usize>) -> bool {
    slots matches Some(slots) ==> slots >= 1
}

impl ConcurrencyLimit {
    /// Whether the limit is one a gate can be made with: a bound is at
    /// least one.
    pub open spec fn valid(self) -> bool {
        self matches ConcurrencyLimit::BoundedBy(slots) ==> slots >= 1
    }

    /// Whether an optional number of slots is a limit, that is, not zero.
    pub fn accepts(slots: Option<usize>) -> (accepted: bool)
        ensures
            accepted == is_limit(slots),
    {
        match slots {
            Some(slots) => slots >= 1,
            None => true,
        }
    }

    /// The limit that an optional number of slots stands for.
    pub fn from_option(slots: Option<usize>) -> (limit: ConcurrencyLimit)
        requires
            is_limit(slots),
        ensures
            limit == limit_of(slots),
            limit.valid(),
    {
        match slots {
            Some(slots) => ConcurrencyLimit::BoundedBy(slots),
            None => ConcurrencyLimit::Unbounded,
        }
    }
}

/// The mathematical value of a gate.
pub struct GateView {
    pub limit: ConcurrencyLimit,
    /// The number of slots that are held: the invocations that were admitted
    /// and have not given their slot back, with or without a limit.
    pub in_flight: nat,
    pub closed: bool,
}

impl GateView {
    /// The open gate with the given limit and no slot held.
    pub open spec fn initial(limit: ConcurrencyLimit) -> GateView {
        GateView { limit, in_flight: 0, closed: false }
    }

    /// Whether a caller that asks now finds a free slot. With a limit there
    /// is one while fewer slots than the limit are held; without a limit
    /// there is one as long as the count of held slots can still grow.
    pub open spec fn has_room(self) -> bool {
        match self.limit {
            ConcurrencyLimit::Unbounded => self.in_flight < usize::MAX,
            ConcurrencyLimit::BoundedBy(slots) => self.in_flight < slots,
        }
    }

    /// The number of slots held does not exceed the limit, if there is one.
    pub open spec fn within_limit(self) -> bool {
        match self.limit {
            ConcurrencyLimit::Unbounded => true,
            ConcurrencyLimit::BoundedBy(slots) => self.in_flight <= slots,
        }
    }

    /// What holds of every gate: its limit is valid, the slots held are
    /// within it, and their count fits the machine.
    pub open spec fn wf(self) -> bool {
        &&& self.limit.valid()
        &&& self.within_limit()
        &&& self.in_flight <= usize::MAX
    }

    /// Why a caller that asks now gets no slot, or `None` where it gets one.
    pub open spec fn refusal(self) -> Option<Refusal> {
        if self.closed {
            Some(Refusal::Unavailable)
        } else if self.has_room() {
            None
        } else {
            Some(Refusal::MustWait)
        }
    }

    /// The admission gate after a caller has asked for a slot: a grant is
    /// counted, whatever the limit.
    pub open spec fn after_acquire(self) -> GateView {
        if self.refusal() is None {
            GateView { in_flight: self.in_flight + 1, ..self }
        } else {
            self
        }
    }

    /// The admission gate after a slot has been given back.
    pub open spec fn after_release(self) -> GateView {
        if self.in_flight > 0 {
            GateView { in_flight: (self.in_flight - 1) as nat, ..self }
        } else {
            self
        }
    }

    /// The admission gate after it has been closed.
    pub open spec fn after_close(self) -> GateView {
        GateView { closed: true, ..self }
    }
}

/// Why a request for a slot was refused, or `None` where it was granted.
pub open spec fn refusal_of(answer: Result<Permit, Refusal>) -> Option<Refusal> {
    match answer {
        Ok(_) => None,
        Err(refusal) => Some(refusal),
    }
}

/// The admission gate. It counts the slots that are held, hands one out only
/// while the count is under the limit, and refuses every caller once closed.
#[derive(Debug)]
pub struct AdmissionGate {
    limit: ConcurrencyLimit,
    in_flight: usize,
    closed: bool,
}

impl View for AdmissionGate {
    type V = GateView;

    closed spec fn view(&self) -> GateView {
        GateView { limit: self.limit, in_flight: self.in_flight as nat, closed: self.closed }
    }
}

impl AdmissionGate {
    #[verifier::type_invariant]
    spec fn well_formed(&self) -> bool {
        self@.wf()
    }

    /// An open gate with the given limit and no slot held.
    pub fn new(limit: ConcurrencyLimit) -> (gate: AdmissionGate)
        requires
            limit.valid(),
        ensures
            gate@ == GateView::initial(limit),
            gate@.wf(),
    {
        AdmissionGate { limit, in_flight: 0, closed: false }
    }

    /// The limit the admission gate was made with.
    pub fn limit(&self) -> (limit: ConcurrencyLimit)
        ensures
            limit == self@.limit,
            limit.valid(),
    {
        proof {
            use_type_invariant(self);
        }
        self.limit
    }

    /// The number of slots that are held. It is never over the limit.
    pub fn in_flight(&self) -> (count: usize)
        ensures
            count == self@.in_flight,
            self@.wf(),
    {
        proof {
            use_type_invariant(self);
        }
        self.in_flight
    }

    /// Whether the admission gate has been closed.
    pub fn is_closed(&self) -> (closed: bool)
        ensures
            closed == self@.closed,
    {
        self.closed
    }

    /// Asks for a slot. A closed gate answers `Unavailable`. An open gate
    /// grants a slot, and counts it, while there is room: with a limit,
    /// while fewer slots than the limit are held. Otherwise the caller must
    /// wait.
    pub fn try_acquire(&mut self) -> (answer: Result<Permit, Refusal>)
        ensures
            refusal_of(answer) == old(self)@.refusal(),
            final(self)@ == old(self)@.after_acquire(),
            final(self)@.wf(),
    {
        proof {
            use_type_invariant(&*self);
        }
        if self.closed {
            return Err(Refusal::Unavailable);
        }
        let room = match self.limit {
            ConcurrencyLimit::Unbounded => self.in_flight < usize::MAX,
            ConcurrencyLimit::BoundedBy(slots) => self.in_flight < slots,
        };
        if room {
            self.in_flight = self.in_flight + 1;
            Ok(Permit { token: () })
        } else {
            Err(Refusal::MustWait)
        }
    }

    /// Takes a slot back from the invocation that held it.
    pub fn release(&mut self, permit: Permit)
        ensures
            final(self)@ == old(self)@.after_release(),
            final(self)@.wf(),
    {
        proof {
            use_type_invariant(&*self);
        }
        if self.in_flight > 0 {
            self.in_flight = self.in_flight - 1;
        }
    }

    /// Closes the admission gate: from now on every caller is refused.
    /// Slots that are held stay held until they are given back. Closing
    /// twice is closing once.
    pub fn close(&mut self)
        ensures
            final(self)@ == old(self)@.after_close(),
            final(self)@.wf(),
    {
        proof {
            use_type_invariant(&*self);
        }
        self.closed = true;
    }
}

/// Asking for a slot, giving one back and closing each keep the number of
/// slots held within the limit.
pub proof fn lemma_gate_steps_keep_limit(gate: GateView)
    requires
        gate.wf(),
    ensures
        gate.after_acquire().wf(),
        gate.after_release().wf(),
        gate.after_close().wf(),
{
}

/// Every grant is counted, with a limit and without one: a caller that is
/// granted a slot is in flight until a slot is given back.
pub proof fn lemma_grant_is_counted(gate: GateView)
    requires
        gate.wf(),
        gate.refusal() is None,
    ensures
        gate.after_acquire().in_flight == gate.in_flight + 1,
        gate.after_acquire().in_flight > 0,
        gate.after_acquire().after_release() == gate,
{
}

/// A slot is granted only while fewer slots than the limit are held.
pub proof fn lemma_granted_only_with_room(gate: GateView, slots: usize)
    requires
        gate.limit == ConcurrencyLimit::BoundedBy(slots),
        gate.refusal() is None,
    ensures
        gate.in_flight < slots,
        gate.after_acquire().in_flight <= slots,
{
}

/// An open gate with no slot held grants the first caller, whatever its
/// limit.
pub proof fn lemma_first_caller_is_granted(limit: ConcurrencyLimit)
    requires
        limit.valid(),
    ensures
        GateView::initial(limit).refusal() is None,
        GateView::initial(limit).after_acquire().in_flight == 1,
{
}

/// While every slot of a bounded gate is held, the next caller waits; once
/// one slot is given back, the next caller is granted it. With a limit of
/// one, calls therefore run one after the other.
pub proof fn lemma_full_gate_serializes(gate: GateView, slots: usize)
    requires
        gate.wf(),
        gate.limit == ConcurrencyLimit::BoundedBy(slots),
        gate.in_flight == slots,
        !gate.closed,
    ensures
        gate.refusal() == Some(Refusal::MustWait),
        gate.after_acquire() == gate,
        gate.after_release().refusal() is None,
        gate.after_release().after_acquire().in_flight == slots,
{
}

/// Closing a gate that is closed changes nothing.
pub proof fn lemma_close_idempotent(gate: GateView)
    ensures
        gate.after_close().after_close() == gate.after_close(),
{
}

/// A closed gate refuses every caller and hands out no slot.
pub proof fn lemma_closed_gate_refuses(gate: GateView)
    requires
        gate.closed,
    ensures
        gate.refusal() == Some(Refusal::Unavailable),
        gate.after_acquire() == gate,
{
}

} // verus!
