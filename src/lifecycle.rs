//! Ownership bookkeeping across the foreign boundary: when a library
//! instance may release its provider, and when a buffer handle may be
//! released. The caller performs the release that an action names.
use vstd::prelude::*;

verus! {

/// Where a library instance stands.
#[derive(Debug, Clone, Copy, PartialEq, Eq, Structural)]
pub enum Phase {
    Uninitialized,
    Active,
    Released,
}

/// What happens to a library instance.
#[derive(Debug, Clone, Copy, PartialEq, Eq, Structural)]
pub enum Event {
    Construct,
    InvokeStart,
    InvokeEnd,
    Destroy,
}

/// What the caller is to do after an event.
#[derive(Debug, Clone, Copy, PartialEq, Eq, Structural)]
pub enum Action {
    /// The event is accepted; nothing is to be released.
    Proceed,
    /// The event is accepted; release the provider now.
    ReleaseProvider,
    /// The event is not valid in this state; nothing changed.
    Refuse,
}

/// The state of a library instance: its phase and how many invocations are
/// in flight.
#[derive(Debug, Clone, Copy, PartialEq, Eq, Structural)]
pub struct Lifecycle {
    pub phase: Phase,
    pub in_flight: u64,
}

/// Only an active instance has invocations in flight.
pub open spec fn lifecycle_wf(s: Lifecycle) -> bool {
    s.phase != Phase::Active ==> s.in_flight == 0
}

/// The state and action that follow `e` in state `s`.
pub open spec fn next(s: Lifecycle, e: Event) -> (Lifecycle, Action) {
    let refuse = (s, Action::Refuse);
    match e {
        Event::Construct => if s.phase == Phase::Uninitialized {
            (Lifecycle { phase: Phase::Active, in_flight: 0 }, Action::Proceed)
        } else {
            refuse
        },
        Event::InvokeStart => if s.phase == Phase::Active && s.in_flight < u64::MAX {
            (Lifecycle { phase: Phase::Active, in_flight: (s.in_flight + 1) as u64 }, Action::Proceed)
        } else {
            refuse
        },
        Event::InvokeEnd => if s.phase == Phase::Active && s.in_flight > 0 {
            (Lifecycle { phase: Phase::Active, in_flight: (s.in_flight - 1) as u64 }, Action::Proceed)
        } else {
            refuse
        },
        Event::Destroy => if s.phase == Phase::Active && s.in_flight == 0 {
            (Lifecycle { phase: Phase::Released, in_flight: 0 }, Action::ReleaseProvider)
        } else {
            refuse
        },
    }
}

/// The state after the events `es`, in order, from `s`.
pub open spec fn state_after(s: Lifecycle, es: Seq<Event>) -> Lifecycle
    decreases es.len(),
{
    if es.len() == 0 {
        s
    } else {
        state_after(next(s, es[0]).0, es.drop_first())
    }
}

/// How many times the events `es`, from `s`, ask to release the provider.
pub open spec fn provider_releases(s: Lifecycle, es: Seq<Event>) -> nat
    decreases es.len(),
{
    if es.len() == 0 {
        0
    } else {
        let (t, a) = next(s, es[0]);
        (if a == Action::ReleaseProvider { 1nat } else { 0nat }) + provider_releases(t, es.drop_first())
    }
}

impl Lifecycle {
    /// An instance that is not yet constructed.
    pub fn new() -> (r: Lifecycle)
        ensures
            r == (Lifecycle { phase: Phase::Uninitialized, in_flight: 0 }),
            lifecycle_wf(r),
    {
        Lifecycle { phase: Phase::Uninitialized, in_flight: 0 }
    }

    /// Applies an event and says what the caller is to do.
    pub fn step(&mut self, e: Event) -> (r: Action)
        requires
            lifecycle_wf(*old(self)),
        ensures
            (*final(self), r) == next(*old(self), e),
            lifecycle_wf(*final(self)),
    {
        match e {
            Event::Construct => {
                if self.phase == Phase::Uninitialized {
                    self.phase = Phase::Active;
                    self.in_flight = 0;
                    Action::Proceed
                } else {
                    Action::Refuse
                }
            },
            Event::InvokeStart => {
                if self.phase == Phase::Active && self.in_flight < u64::MAX {
                    self.in_flight = self.in_flight + 1;
                    Action::Proceed
                } else {
                    Action::Refuse
                }
            },
            Event::InvokeEnd => {
                if self.phase == Phase::Active && self.in_flight > 0 {
                    self.in_flight = self.in_flight - 1;
                    Action::Proceed
                } else {
                    Action::Refuse
                }
            },
            Event::Destroy => {
                if self.phase == Phase::Active && self.in_flight == 0 {
                    self.phase = Phase::Released;
                    Action::ReleaseProvider
                } else {
                    Action::Refuse
                }
            },
        }
    }
}

/// Once released, an instance refuses every event and stays released.
pub proof fn lemma_released_is_final(s: Lifecycle, e: Event)
    requires
        s.phase == Phase::Released,
    ensures
        next(s, e) == (s, Action::Refuse),
{
}

/// The provider is released only by a destroy with no invocation in flight.
pub proof fn lemma_release_only_when_idle(s: Lifecycle, e: Event)
    requires
        next(s, e).1 == Action::ReleaseProvider,
    ensures
        e == Event::Destroy,
        s.phase == Phase::Active,
        s.in_flight == 0,
        next(s, e).0.phase == Phase::Released,
{
}

/// Over any run of events, the provider is released at most once, and not
/// at all from an instance already released; a run that ends released has
/// released it exactly once.
pub proof fn lemma_provider_released_once(s: Lifecycle, es: Seq<Event>)
    ensures
        s.phase == Phase::Released ==> provider_releases(s, es) == 0,
        provider_releases(s, es) <= 1,
        s.phase != Phase::Released && state_after(s, es).phase == Phase::Released
            ==> provider_releases(s, es) == 1,
    decreases es.len(),
{
    if es.len() > 0 {
        let t = next(s, es[0]).0;
        lemma_provider_released_once(t, es.drop_first());
        if s.phase == Phase::Released {
            lemma_released_is_final(s, es[0]);
        }
    }
}

/// One buffer handle received from the foreign side: live until released.
#[derive(Debug, Clone, Copy, PartialEq, Eq, Structural)]
pub struct BufferLease {
    pub released: bool,
}

/// How many of `n` release requests on a lease actually release it.
pub open spec fn buffer_releases(released: bool, n: nat) -> nat
    decreases n,
{
    if n == 0 {
        0
    } else if released {
        buffer_releases(true, (n - 1) as nat)
    } else {
        1 + buffer_releases(true, (n - 1) as nat)
    }
}

impl BufferLease {
    /// A lease on a buffer just handed over.
    pub fn new() -> (r: BufferLease)
        ensures
            !r.released,
    {
        BufferLease { released: false }
    }

    /// Whether the buffer may still be read.
    pub fn is_live(&self) -> (r: bool)
        ensures
            r == !self.released,
    {
        !self.released
    }

    /// Asks to release the buffer: true, and the caller releases it, only
    /// the first time.
    pub fn release(&mut self) -> (r: bool)
        ensures
            r == !old(self).released,
            final(self).released,
    {
        let first = !self.released;
        self.released = true;
        first
    }
}

/// Of any number of release requests on a fresh lease, exactly one releases
/// the buffer, as long as there is one at all.
pub proof fn lemma_buffer_released_once(released: bool, n: nat)
    ensures
        buffer_releases(released, n) == (if !released && n > 0 { 1nat } else { 0nat }),
    decreases n,
{
    if n > 0 {
        lemma_buffer_released_once(true, (n - 1) as nat);
    }
}

} // verus!
