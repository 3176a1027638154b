//! Call-bridge protocol for a loaded extension instance.
//!
//! Every exported function is called under a two-phase protocol: an invoke
//! phase followed by a mandatory cleanup phase. Both phases must run to
//! completion as a unit — the embedding runs them on an execution context
//! that cancellation cannot reach — and an instance admits at most one call
//! at a time: a second call may not start its invoke before the first call's
//! cleanup has finished. A failed cleanup leaves the instance poisoned: no
//! further call may start.
//!
//! [`CallBridge`] is the per-instance guard the embedding drives; the spec
//! functions beside it describe every admissible run of the protocol, and
//! [`lemma_calls_never_interleave`] proves that along any such run the
//! number of in-flight calls — incremented when an invoke starts and
//! decremented when its call ends — never exceeds one.

use vstd::prelude::*;

verus! {

/// Error of the loader: the module could not be validated, an export was
/// missing, or a capability could not be bound.
#[derive(Debug, Clone, Copy, PartialEq, Eq, Structural)]
pub enum LoadError {
    LoadFailed,
}

/// Opaque error of the call bridge: invocation, marshalling or cleanup
/// failed.
#[derive(Debug, Clone, Copy, PartialEq, Eq, Structural)]
pub enum CallError {
    CallFailed,
}

/// Phase of the two-phase call protocol on one instance.
#[derive(Debug, Clone, Copy, PartialEq, Eq, Structural)]
pub enum CallPhase {
    Idle,
    Invoking,
    CleaningUp,
}

/// One observable event of the call protocol.
#[derive(Debug, Clone, Copy, PartialEq, Eq, Structural)]
pub enum BridgeEvent {
    StartInvoke,
    FinishInvoke { ok: bool },
    FinishCleanup { ok: bool },
}

/// The abstract state of one instance's call guard.
pub struct BridgeState {
    pub phase: CallPhase,
    pub in_flight: nat,
    pub poisoned: bool,
}

/// The state of a fresh instance: idle, nothing in flight, not poisoned.
pub open spec fn bridge_init() -> BridgeState {
    BridgeState { phase: CallPhase::Idle, in_flight: 0, poisoned: false }
}

/// The protocol's transition relation: `None` when the event is not
/// admissible in the given state. An invoke may start only on an idle,
/// unpoisoned instance; a successful invoke must be followed by cleanup
/// before the instance is idle again; a failed invoke needs no cleanup; a
/// failed cleanup poisons the instance.
pub open spec fn bridge_step(s: BridgeState, e: BridgeEvent) -> Option<BridgeState> {
    match e {
        BridgeEvent::StartInvoke => {
            if s.phase is Idle && !s.poisoned {
                Some(BridgeState { phase: CallPhase::Invoking, in_flight: s.in_flight + 1, ..s })
            } else {
                None
            }
        },
        BridgeEvent::FinishInvoke { ok } => {
            if s.phase is Invoking {
                if ok {
                    Some(BridgeState { phase: CallPhase::CleaningUp, ..s })
                } else {
                    Some(
                        BridgeState {
                            phase: CallPhase::Idle,
                            in_flight: (s.in_flight - 1) as nat,
                            ..s
                        },
                    )
                }
            } else {
                None
            }
        },
        BridgeEvent::FinishCleanup { ok } => {
            if s.phase is CleaningUp {
                Some(
                    BridgeState {
                        phase: CallPhase::Idle,
                        in_flight: (s.in_flight - 1) as nat,
                        poisoned: s.poisoned || !ok,
                    },
                )
            } else {
                None
            }
        },
    }
}

/// Run the protocol over a whole event trace; `None` as soon as some event
/// is inadmissible.
pub open spec fn bridge_run(s: BridgeState, trace: Seq<BridgeEvent>) -> Option<BridgeState>
    decreases trace.len(),
{
    if trace.len() == 0 {
        Some(s)
    } else {
        match bridge_step(s, trace.first()) {
            Some(next) => bridge_run(next, trace.drop_first()),
            None => None,
        }
    }
}

/// The protocol's invariant: exactly one call is in flight while a call is
/// between the start of its invoke and the end of its cleanup (or of its
/// failed invoke), none otherwise.
pub open spec fn bridge_inv(s: BridgeState) -> bool {
    s.in_flight == if s.phase is Idle {
        0nat
    } else {
        1nat
    }
}

/// Every admissible step preserves the protocol's invariant.
pub proof fn lemma_step_preserves_inv(s: BridgeState, e: BridgeEvent)
    requires
        bridge_inv(s),
        bridge_step(s, e) is Some,
    ensures
        bridge_inv(bridge_step(s, e).unwrap()),
{
}

/// Every admissible run from an invariant state ends in an invariant state.
pub proof fn lemma_run_preserves_inv(s: BridgeState, trace: Seq<BridgeEvent>)
    requires
        bridge_inv(s),
        bridge_run(s, trace) is Some,
    ensures
        bridge_inv(bridge_run(s, trace).unwrap()),
    decreases trace.len(),
{
    if trace.len() > 0 {
        lemma_step_preserves_inv(s, trace.first());
        lemma_run_preserves_inv(bridge_step(s, trace.first()).unwrap(), trace.drop_first());
    }
}

/// Law: two calls into the same instance never interleave. Along any
/// admissible trace of the protocol, at every point, the number of calls
/// between the start of their invoke and the end of their cleanup never
/// exceeds one.
pub proof fn lemma_calls_never_interleave(trace: Seq<BridgeEvent>, n: int)
    requires
        0 <= n <= trace.len(),
        bridge_run(bridge_init(), trace.subrange(0, n)) is Some,
    ensures
        bridge_run(bridge_init(), trace.subrange(0, n)).unwrap().in_flight <= 1,
{
    lemma_run_preserves_inv(bridge_init(), trace.subrange(0, n));
}

/// The per-instance call guard the embedding drives. The embedding holds it
/// behind the same exclusive lock as the instance itself, claims it before
/// the invoke phase, and releases it only after the cleanup phase — so its
/// counter is exactly the counter of the law above.
pub struct CallBridge {
    phase: CallPhase,
    in_flight: u32,
    poisoned: bool,
}

impl CallBridge {
    /// The abstract state of the guard.
    pub closed spec fn view(self) -> BridgeState {
        BridgeState {
            phase: self.phase,
            in_flight: self.in_flight as nat,
            poisoned: self.poisoned,
        }
    }

    /// A fresh guard, idle and unpoisoned.
    pub fn new() -> (r: Self)
        ensures
            r.view() == bridge_init(),
    {
        CallBridge { phase: CallPhase::Idle, in_flight: 0, poisoned: false }
    }

    /// Number of calls currently in flight.
    pub fn in_flight(&self) -> (r: u32)
        ensures
            r == self.view().in_flight,
    {
        self.in_flight
    }

    /// Whether a failed cleanup has poisoned the instance.
    pub fn poisoned(&self) -> (r: bool)
        ensures
            r == self.view().poisoned,
    {
        self.poisoned
    }

    /// Try to start a call's invoke phase: succeeds exactly when the
    /// instance is idle and not poisoned, and then takes the protocol's
    /// `StartInvoke` step; otherwise nothing changes and the caller must
    /// wait (or give up, when poisoned).
    pub fn start_invoke(&mut self) -> (r: bool)
        requires
            bridge_inv(old(self).view()),
        ensures
            bridge_inv(final(self).view()),
            r == (bridge_step(old(self).view(), BridgeEvent::StartInvoke) is Some),
            r ==> final(self).view() == bridge_step(
                old(self).view(),
                BridgeEvent::StartInvoke,
            ).unwrap(),
            !r ==> *final(self) == *old(self),
    {
        match self.phase {
            CallPhase::Idle => {
                if self.poisoned {
                    false
                } else {
                    self.phase = CallPhase::Invoking;
                    self.in_flight = self.in_flight + 1;
                    true
                }
            },
            _ => false,
        }
    }

    /// End the invoke phase: a successful invoke moves on to the mandatory
    /// cleanup phase, a failed one ends the call.
    pub fn finish_invoke(&mut self, ok: bool)
        requires
            bridge_inv(old(self).view()),
            old(self).view().phase is Invoking,
        ensures
            bridge_inv(final(self).view()),
            final(self).view() == bridge_step(
                old(self).view(),
                BridgeEvent::FinishInvoke { ok },
            ).unwrap(),
    {
        if ok {
            self.phase = CallPhase::CleaningUp;
        } else {
            self.phase = CallPhase::Idle;
            self.in_flight = self.in_flight - 1;
        }
    }

    /// End the cleanup phase, ending the call; a failed cleanup poisons the
    /// instance, and no further call will start on it.
    pub fn finish_cleanup(&mut self, ok: bool)
        requires
            bridge_inv(old(self).view()),
            old(self).view().phase is CleaningUp,
        ensures
            bridge_inv(final(self).view()),
            final(self).view() == bridge_step(
                old(self).view(),
                BridgeEvent::FinishCleanup { ok },
            ).unwrap(),
    {
        self.phase = CallPhase::Idle;
        self.in_flight = self.in_flight - 1;
        if !ok {
            self.poisoned = true;
        }
    }
}

/// The loader's export check: resolving the API surface of a module
/// succeeds exactly when all five exported functions are present; any
/// missing export fails the load.
pub fn exports_complete(
    has_initialize: bool,
    has_get_manga_list: bool,
    has_get_manga_details: bool,
    has_get_chapter_list: bool,
    has_get_page_list: bool,
) -> (r: Result<(), LoadError>)
    ensures
        r is Ok <==> (has_initialize && has_get_manga_list && has_get_manga_details
            && has_get_chapter_list && has_get_page_list),
        r is Err ==> r == Err::<(), LoadError>(LoadError::LoadFailed),
{
    if has_initialize && has_get_manga_list && has_get_manga_details && has_get_chapter_list
        && has_get_page_list {
        Ok(())
    } else {
        Err(LoadError::LoadFailed)
    }
}

} // verus!
