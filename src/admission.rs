use vstd::multiset::Multiset;
use vstd::prelude::*;

verus! {

broadcast use {vstd::multiset::group_multiset_axioms, vstd::multiset::group_multiset_properties};

/// A backpressure notification sent upstream, against the flow of events.
#[derive(PartialEq, Eq, Structural, Clone, Copy, Debug)]
pub enum Signal {
    /// Capacity is exhausted: upstream producers pause.
    Close,
    /// Capacity is available again: upstream producers resume.
    Restore,
}

/// A reservation of one concurrency slot.
///
/// A permit is neither `Clone` nor `Copy`: it is handed back exactly once,
/// by moving it into `ConcurrencyCap::release`.
#[derive(Debug)]
pub struct Permit {
    num: u64,
}

impl Permit {
    pub closed spec fn spec_num(&self) -> u64 {
        self.num
    }

    /// The ordinal of the permit, used to name the task that holds it.
    pub fn num(&self) -> (r: u64)
        ensures
            r == self.spec_num(),
    {
        self.num
    }
}

/// What an attempt to acquire a slot gives.
#[derive(Debug)]
pub enum Admission {
    /// A slot was free and is now reserved.
    Granted(Permit),
    /// Every slot is taken; the caller waits for a release and tries again.
    /// Holds the signal to send upstream, if this attempt changed the
    /// backpressure state.
    Saturated(Option<Signal>),
}

/// Bounded permit issuer with backpressure signalling.
pub struct ConcurrencyCap {
    max: usize,
    live: usize,
    counter: u64,
    closed: bool,
    outstanding: Ghost<Multiset<u64>>,
}

impl ConcurrencyCap {
    /// The configured bound on concurrent permits.
    pub closed spec fn max(&self) -> nat {
        self.max as nat
    }

    /// The number of permits that exist now.
    pub closed spec fn live(&self) -> nat {
        self.live as nat
    }

    /// The ordinal the next granted permit carries.
    pub closed spec fn counter(&self) -> u64 {
        self.counter
    }

    /// Whether upstream has been told to pause and not yet to resume.
    pub closed spec fn is_closed(&self) -> bool {
        self.closed
    }

    /// The ordinals of the permits that exist now.
    pub closed spec fn outstanding(&self) -> Multiset<u64> {
        self.outstanding@
    }

    pub closed spec fn wf(&self) -> bool {
        &&& self.max >= 1
        &&& self.live <= self.max
        &&& self.outstanding@.len() == self.live
        &&& self.closed ==> self.live == self.max
    }

    /// The relation between the controller before and after `acquire`.
    pub open spec fn acquire_step(before: Self, after: Self, r: Admission) -> bool {
        &&& after.max() == before.max()
        &&& if before.live() < before.max() {
            &&& r is Granted
            &&& r->Granted_0.spec_num() == before.counter()
            &&& after.live() == before.live() + 1
            &&& after.outstanding() == before.outstanding().insert(before.counter())
            &&& after.counter() == (before.counter() as int + 1) % 0x1_0000_0000_0000_0000
            &&& after.is_closed() == before.is_closed()
        } else {
            &&& r is Saturated
            &&& r->Saturated_0 == (if before.is_closed() {
                None
            } else {
                Some(Signal::Close)
            })
            &&& after.live() == before.live()
            &&& after.outstanding() == before.outstanding()
            &&& after.counter() == before.counter()
            &&& after.is_closed()
        }
    }

    /// The relation between the controller before and after `release`
    /// of a permit with ordinal `num`.
    pub open spec fn release_step(before: Self, after: Self, num: u64, r: Option<Signal>) -> bool {
        &&& after.max() == before.max()
        &&& after.live() == before.live() - 1
        &&& after.outstanding() == before.outstanding().remove(num)
        &&& after.counter() == before.counter()
        &&& !after.is_closed()
        &&& r == (if before.is_closed() {
            Some(Signal::Restore)
        } else {
            None
        })
    }

    pub fn new(max: usize) -> (r: Self)
        requires
            max >= 1,
        ensures
            r.wf(),
            r.max() == max,
            r.live() == 0,
            r.outstanding() == Multiset::<u64>::empty(),
            r.counter() == 0,
            !r.is_closed(),
    {
        ConcurrencyCap {
            max,
            live: 0,
            counter: 0,
            closed: false,
            outstanding: Ghost(Multiset::empty()),
        }
    }

    pub fn max_permits(&self) -> (r: usize)
        ensures
            r == self.max(),
    {
        self.max
    }

    pub fn live_permits(&self) -> (r: usize)
        ensures
            r == self.live(),
    {
        self.live
    }

    /// Reserves a slot if one is free. When every slot is taken, the first
    /// such attempt asks upstream to pause.
    pub fn acquire(&mut self) -> (r: Admission)
        requires
            old(self).wf(),
        ensures
            final(self).wf(),
            Self::acquire_step(*old(self), *final(self), r),
    {
        if self.live < self.max {
            let num = self.counter;
            self.live = self.live + 1;
            self.counter = self.counter.wrapping_add(1);
            self.outstanding = Ghost(self.outstanding@.insert(num));
            Admission::Granted(Permit { num })
        } else {
            let signal = if self.closed {
                None
            } else {
                Some(Signal::Close)
            };
            self.closed = true;
            Admission::Saturated(signal)
        }
    }

    /// Gives a slot back. When upstream was asked to pause, it is told to
    /// resume.
    pub fn release(&mut self, permit: Permit) -> (r: Option<Signal>)
        requires
            old(self).wf(),
            old(self).outstanding().count(permit.spec_num()) > 0,
        ensures
            final(self).wf(),
            Self::release_step(*old(self), *final(self), permit.spec_num(), r),
    {
        let Permit { num } = permit;
        proof {
            assert(self.outstanding@.count(num) <= self.outstanding@.len());
            assert(Multiset::singleton(num).subset_of(self.outstanding@));
        }
        self.live = self.live - 1;
        self.outstanding = Ghost(self.outstanding@.remove(num));
        let signal = if self.closed {
            Some(Signal::Restore)
        } else {
            None
        };
        self.closed = false;
        signal
    }
}

/// At no point do more permits exist than the configured bound.
pub proof fn lemma_permits_bounded(cap: &ConcurrencyCap)
    requires
        cap.wf(),
    ensures
        cap.live() <= cap.max(),
        cap.outstanding().len() == cap.live(),
{
}

/// Upstream is paused only while every slot is taken: once no permit is
/// out, the backpressure signal is cleared.
pub proof fn lemma_idle_is_open(cap: &ConcurrencyCap)
    requires
        cap.wf(),
    ensures
        cap.is_closed() ==> cap.live() == cap.max(),
        cap.live() == 0 ==> !cap.is_closed(),
{
}

/// A permit that is acquired and then released leaves the controller with
/// the permits it had before: each acquire is matched by exactly one release.
pub proof fn lemma_acquire_release_balanced(
    s0: ConcurrencyCap,
    s1: ConcurrencyCap,
    s2: ConcurrencyCap,
    a: Admission,
    r: Option<Signal>,
)
    requires
        ConcurrencyCap::acquire_step(s0, s1, a),
        a is Granted,
        ConcurrencyCap::release_step(s1, s2, a->Granted_0.spec_num(), r),
    ensures
        s2.live() == s0.live(),
        s2.outstanding() == s0.outstanding(),
{
    assert(s2.outstanding() =~= s0.outstanding());
}

} // verus!
