use vstd::prelude::*;

verus! {

/// Forwards to the Platform that one session may have in flight at once.
pub const FORWARD_PERMITS: u32 = 50;

/// What happens to one incoming broker publish.
#[derive(Clone, Copy, Debug, PartialEq, Eq, Structural)]
pub enum Admission {
    /// A permit was taken: forward now, and release the permit when the
    /// Platform call returns.
    Admitted,
    /// Every permit is taken: wait for a release and ask again.
    Wait,
    /// The limiter is closed: drop the publish.
    Dropped,
}

/// The counting semaphore that bounds one session's forwards in flight.
pub struct ForwardLimiter {
    in_flight: u32,
    closed: bool,
}

impl View for ForwardLimiter {
    /// Forwards in flight, and whether the limiter is closed.
    type V = (nat, bool);

    closed spec fn view(&self) -> (nat, bool) {
        (self.in_flight as nat, self.closed)
    }
}

impl ForwardLimiter {
    /// No more forwards are in flight than there are permits.
    pub open spec fn wf(&self) -> bool {
        self@.0 <= FORWARD_PERMITS
    }

    pub fn new() -> (l: ForwardLimiter)
        ensures
            l@ == (0nat, false),
            l@ == limiter_run(Seq::empty()),
            l.wf(),
    {
        ForwardLimiter { in_flight: 0, closed: false }
    }

    /// Asks for a permit for one publish.
    pub fn try_acquire(&mut self) -> (a: Admission)
        requires
            old(self).wf(),
        ensures
            final(self).wf(),
            old(self)@.1 ==> a == Admission::Dropped && final(self)@ == old(self)@,
            !old(self)@.1 && old(self)@.0 < FORWARD_PERMITS ==> a == Admission::Admitted && final(self)@ == (
            old(self)@.0 + 1, false),
            !old(self)@.1 && old(self)@.0 == FORWARD_PERMITS ==> a == Admission::Wait && final(self)@
                == old(self)@,
            final(self)@ == limiter_step(old(self)@, LimiterOp::Acquire),
    {
        if self.closed {
            Admission::Dropped
        } else if self.in_flight < FORWARD_PERMITS {
            self.in_flight = self.in_flight + 1;
            Admission::Admitted
        } else {
            Admission::Wait
        }
    }

    /// Gives back the permit of a forward that has returned.
    pub fn release(&mut self)
        requires
            old(self).wf(),
            old(self)@.0 > 0,
        ensures
            final(self).wf(),
            final(self)@ == ((old(self)@.0 - 1) as nat, old(self)@.1),
            final(self)@ == limiter_step(old(self)@, LimiterOp::Release),
    {
        self.in_flight = self.in_flight - 1;
    }

    /// Closes the limiter when its session ends; forwards in flight finish
    /// on their own.
    pub fn close(&mut self)
        requires
            old(self).wf(),
        ensures
            final(self).wf(),
            final(self)@ == (old(self)@.0, true),
            final(self)@ == limiter_step(old(self)@, LimiterOp::Close),
    {
        self.closed = true;
    }

    /// Forwards in flight.
    pub fn in_flight(&self) -> (n: u32)
        ensures
            n == self@.0,
    {
        self.in_flight
    }
}

/// One operation of a session on its limiter.
#[derive(Clone, Copy, Debug, PartialEq, Eq, Structural)]
pub enum LimiterOp {
    Acquire,
    Release,
    Close,
}

/// Forwards in flight and closedness after one operation; a release with
/// nothing in flight changes nothing.
pub open spec fn limiter_step(v: (nat, bool), op: LimiterOp) -> (nat, bool) {
    match op {
        LimiterOp::Acquire => if !v.1 && v.0 < FORWARD_PERMITS {
            (v.0 + 1, v.1)
        } else {
            v
        },
        LimiterOp::Release => if v.0 > 0 {
            ((v.0 - 1) as nat, v.1)
        } else {
            v
        },
        LimiterOp::Close => (v.0, true),
    }
}

/// The limiter after a run of operations on a new one.
pub open spec fn limiter_run(ops: Seq<LimiterOp>) -> (nat, bool)
    decreases ops.len(),
{
    if ops.len() == 0 {
        (0, false)
    } else {
        limiter_step(limiter_run(ops.drop_last()), ops.last())
    }
}

/// Whatever a session does with its limiter, it never has more forwards in
/// flight than there are permits.
pub proof fn lemma_forwards_bounded(ops: Seq<LimiterOp>)
    ensures
        limiter_run(ops).0 <= FORWARD_PERMITS,
    decreases ops.len(),
{
    if ops.len() > 0 {
        lemma_forwards_bounded(ops.drop_last());
    }
}

} // verus!
