//! The watcher: which calls it asks of the platform, in which order, and what it makes of
//! the answers.
//!
//! The watcher makes no platform call itself. An operation that needs the platform hands
//! out an [`Attempt`], which names one call at a time; the caller makes the call and
//! reports how it went, and the attempt answers with the next call or with the watcher
//! and the result of the operation.

use crate::calls::{failure_of, start_calls, NativeCall, ScanningMode};
use crate::error::{NativeOutcome, WatcherError};
use crate::filter::ScanFilter;
use crate::guid::{platform_guid, Guid};
use vstd::prelude::*;

verus! {

/// The two states of a watcher. An armed watcher holds the callback that receives the
/// advertisements.
pub enum WatcherState<C> {
    Disarmed,
    Armed(C),
}

/// An operation under way, as the contracts see it.
pub struct AttemptView<C> {
    /// Every call of the operation, in order.
    pub calls: Seq<NativeCall>,
    /// How many of them have completed; the next one is the call to make now.
    pub position: nat,
    /// The callback of the watcher as it was armed before the operation, for as long as
    /// the session has not been disarmed.
    pub displaced: Option<C>,
    /// The state of the watcher once every call has completed.
    pub goal: WatcherState<C>,
}

/// Where an operation stands after an answer of the platform, as the contracts see it.
pub enum StepView<C> {
    /// There is a further call to make.
    Pending(AttemptView<C>),
    /// The operation is over: the watcher's state, and the result for the caller.
    Finished(WatcherState<C>, Result<(), WatcherError>),
}

impl<C> WatcherState<C> {
    /// The callback that receives the advertisements, if there is one.
    pub open spec fn receiver(self) -> Option<C> {
        match self {
            WatcherState::Disarmed => None,
            WatcherState::Armed(callback) => Some(callback),
        }
    }

    /// What becomes of an advertisement that the platform hands over: an armed watcher
    /// passes it to its callback, if there is an advertisement at all; a disarmed watcher
    /// passes nothing on.
    pub open spec fn delivery<E>(self, event: Option<E>) -> Option<(C, E)> {
        match (self, event) {
            (WatcherState::Armed(callback), Some(payload)) => Some((callback, payload)),
            _ => None,
        }
    }

    /// A start from this state. An armed watcher is disarmed first; until that call has
    /// completed it keeps its old callback.
    pub open spec fn begin_start(self, services: Seq<u128>, on_received: C) -> AttemptView<C> {
        AttemptView {
            calls: start_calls(self is Armed, services),
            position: 0,
            displaced: self.receiver(),
            goal: WatcherState::Armed(on_received),
        }
    }

    /// A stop from this state. A disarmed watcher has nothing to ask of the platform: the
    /// stop is over at once, with success.
    pub open spec fn begin_stop(self) -> StepView<C> {
        match self {
            WatcherState::Disarmed => StepView::Finished(WatcherState::Disarmed, Ok(())),
            WatcherState::Armed(callback) => StepView::Pending(
                AttemptView {
                    calls: seq![NativeCall::Stop],
                    position: 0,
                    displaced: Some(callback),
                    goal: WatcherState::Disarmed,
                },
            ),
        }
    }
}

impl<C> AttemptView<C> {
    /// The call to make now.
    pub open spec fn current(self) -> NativeCall {
        self.calls[self.position as int]
    }

    /// There is a call to make now; the disarming call can only come first; and the old
    /// callback is kept exactly while the disarming call is the one to make.
    pub open spec fn well_formed(self) -> bool {
        &&& self.position < self.calls.len()
        &&& forall|i: int| 0 < i < self.calls.len() ==> self.calls[i] != NativeCall::Stop
        &&& self.displaced is Some <==> self.current() == NativeCall::Stop
    }

    /// The state in which a failure of the current call leaves the watcher: armed as
    /// before if the session has not been disarmed yet, disarmed otherwise.
    pub open spec fn fallback(self) -> WatcherState<C> {
        match self.displaced {
            Some(callback) => WatcherState::Armed(callback),
            None => WatcherState::Disarmed,
        }
    }

    /// How many calls are left to make, the current one included.
    pub open spec fn remaining(self) -> nat {
        (self.calls.len() - self.position) as nat
    }

    /// Where the operation stands once the platform has answered the current call.
    ///
    /// A completed call leads to the next one, or, after the last, to the goal. A failed
    /// call ends the operation: no further call is made, and the error says which kind of
    /// call failed and carries the platform's description.
    pub open spec fn advance(self, outcome: NativeOutcome) -> StepView<C> {
        match outcome {
            NativeOutcome::Completed => if self.position + 1 < self.calls.len() {
                StepView::Pending(
                    AttemptView { position: self.position + 1, displaced: None, ..self },
                )
            } else {
                StepView::Finished(self.goal, Ok(()))
            },
            NativeOutcome::Failed(description) => StepView::Finished(
                self.fallback(),
                Err(failure_of(self.current(), description)),
            ),
        }
    }

    /// Where the operation stands once the platform has answered call after call with
    /// `outcomes`, in order. The operation ends with the first failure or with the last
    /// call; answers that would come after its end are not looked at.
    pub open spec fn run(self, outcomes: Seq<NativeOutcome>) -> StepView<C>
        decreases outcomes.len(),
    {
        if outcomes.len() == 0 {
            StepView::Pending(self)
        } else {
            match self.advance(outcomes.first()) {
                StepView::Pending(next) => next.run(outcomes.drop_first()),
                finished => finished,
            }
        }
    }
}

/// An advertisement watcher: the state of one scanning session of the platform.
pub struct BLEWatcher<C> {
    state: WatcherState<C>,
}

/// An operation of a watcher that is waiting for the platform. It owns the watcher until
/// the operation is over.
#[must_use]
pub struct Attempt<C> {
    calls: Vec<NativeCall>,
    next: usize,
    displaced: Option<C>,
    goal: WatcherState<C>,
}

/// Where an operation stands after an answer of the platform.
#[must_use]
pub enum Step<C> {
    /// There is a further call to make: the attempt names it.
    Pending(Attempt<C>),
    /// The operation is over: the watcher, and the result for the caller.
    Finished(BLEWatcher<C>, Result<(), WatcherError>),
}

impl<C> View for BLEWatcher<C> {
    type V = WatcherState<C>;

    closed spec fn view(&self) -> WatcherState<C> {
        self.state
    }
}

impl<C> View for Attempt<C> {
    type V = AttemptView<C>;

    closed spec fn view(&self) -> AttemptView<C> {
        AttemptView {
            calls: self.calls@,
            position: self.next as nat,
            displaced: self.displaced,
            goal: self.goal,
        }
    }
}

impl<C> View for Step<C> {
    type V = StepView<C>;

    open spec fn view(&self) -> StepView<C> {
        match self {
            Step::Pending(attempt) => StepView::Pending(attempt@),
            Step::Finished(watcher, result) => StepView::Finished(watcher@, *result),
        }
    }
}

impl<C> BLEWatcher<C> {
    /// Makes the watcher for a session that the platform was asked to create. The watcher
    /// begins disarmed. Where the platform could not produce the session there is no
    /// watcher, and the error carries the platform's description.
    pub fn new(session: NativeOutcome) -> (made: Result<BLEWatcher<C>, WatcherError>)
        ensures
            match session {
                NativeOutcome::Completed => made matches Ok(watcher) && watcher@
                    == WatcherState::<C>::Disarmed,
                NativeOutcome::Failed(description) => made matches Err(error) && error
                    == WatcherError::PlatformInit(description),
            },
    {
        match session {
            NativeOutcome::Completed => Ok(BLEWatcher { state: WatcherState::Disarmed }),
            NativeOutcome::Failed(description) => Err(WatcherError::PlatformInit(description)),
        }
    }

    /// Whether the watcher is armed.
    pub fn is_armed(&self) -> (armed: bool)
        ensures
            armed == (self@ is Armed),
    {
        match &self.state {
            WatcherState::Armed(_) => true,
            WatcherState::Disarmed => false,
        }
    }

    /// Begins a start: the session is to listen for the services of `filter` and to hand
    /// what it receives to `on_received`.
    ///
    /// The calls are, in order: the disarming call if the watcher is armed; the call
    /// that empties the session's service identifiers; one call per identifier of the
    /// filter, which adds it in the platform's layout; active scanning; extended
    /// advertisements; the handler; the arming call. The filter is used up here: the
    /// attempt keeps the calls and nothing else of it.
    ///
    /// The start succeeds when the platform has completed every call, and the watcher is
    /// then armed with `on_received`. It fails with the first call that fails: as a scan
    /// configuration error, with the watcher disarmed and `on_received` dropped, unless
    /// the call that failed is the disarming call, which is a stop error and leaves the
    /// watcher armed with the callback it had.
    pub fn start(self, filter: ScanFilter, on_received: C) -> (attempt: Attempt<C>)
        ensures
            attempt@ == self@.begin_start(filter.services@, on_received),
            attempt@.well_formed(),
    {
        let ScanFilter { services } = filter;
        let mut calls: Vec<NativeCall> = Vec::new();
        let displaced = match self.state {
            WatcherState::Armed(callback) => {
                calls.push(NativeCall::Stop);
                Some(callback)
            },
            WatcherState::Disarmed => None,
        };
        calls.push(NativeCall::ClearServiceUuids);
        let ghost head = calls@;
        let mut i: usize = 0;
        while i < services.len()
            invariant
                i <= services.len(),
                calls@ == head + Seq::new(
                    i as nat,
                    |k: int| NativeCall::AppendServiceUuid(Guid::of(services@[k])),
                ),
            decreases services.len() - i,
        {
            calls.push(NativeCall::AppendServiceUuid(platform_guid(services[i])));
            i += 1;
        }
        calls.push(NativeCall::SetScanningMode(ScanningMode::Active));
        calls.push(NativeCall::SetAllowExtendedAdvertisements(true));
        calls.push(NativeCall::RegisterReceivedHandler);
        calls.push(NativeCall::Start);
        assert(calls@ == start_calls(self@ is Armed, services@));
        Attempt { calls, next: 0, displaced, goal: WatcherState::Armed(on_received) }
    }

    /// Begins a stop. An armed watcher asks the platform to disarm the session: when
    /// that call completes the watcher is disarmed and its callback dropped; when it fails
    /// the stop fails with a stop error and the watcher stays armed, since nothing tells
    /// whether the session still listens. A disarmed watcher asks nothing: the stop is
    /// over at once, with success, and the watcher is as it was.
    pub fn stop(self) -> (step: Step<C>)
        ensures
            step@ == self@.begin_stop(),
            step matches Step::Pending(attempt) ==> attempt@.well_formed(),
    {
        match self.state {
            WatcherState::Disarmed => Step::Finished(
                BLEWatcher { state: WatcherState::Disarmed },
                Ok(()),
            ),
            WatcherState::Armed(callback) => {
                let mut calls: Vec<NativeCall> = Vec::new();
                calls.push(NativeCall::Stop);
                Step::Pending(
                    Attempt {
                        calls,
                        next: 0,
                        displaced: Some(callback),
                        goal: WatcherState::Disarmed,
                    },
                )
            },
        }
    }

    /// Ends the watcher's life. An armed watcher names the disarming call, which the
    /// caller owes the platform so that no scan is left running; a disarmed one names
    /// nothing.
    pub fn teardown(self) -> (call: Option<NativeCall>)
        ensures
            call == (if self@ is Armed {
                Some(NativeCall::Stop)
            } else {
                None
            }),
    {
        match self.state {
            WatcherState::Armed(_) => Some(NativeCall::Stop),
            WatcherState::Disarmed => None,
        }
    }

    /// Decides what becomes of an advertisement that the platform hands over: an armed
    /// watcher passes every advertisement that is there to its callback; a disarmed one
    /// passes nothing on.
    pub fn dispatch<E>(&self, event: Option<E>) -> (delivery: Option<(&C, E)>)
        ensures
            match delivery {
                Some((callback, payload)) => self@.delivery(event) == Some((*callback, payload)),
                None => self@.delivery(event) is None,
            },
    {
        match (&self.state, event) {
            (WatcherState::Armed(callback), Some(payload)) => Some((callback, payload)),
            _ => None,
        }
    }
}

impl<C> Attempt<C> {
    #[verifier::type_invariant]
    closed spec fn inv(&self) -> bool {
        self@.well_formed()
    }

    /// The call to make now.
    pub fn call(&self) -> (call: NativeCall)
        ensures
            call == self@.current(),
            self@.well_formed(),
    {
        proof {
            use_type_invariant(self);
        }
        self.calls[self.next]
    }

    /// Takes the platform's answer to the current call and says what comes next: the
    /// call after it; or, after the last call, the watcher in the state that the operation
    /// was for; or, after a failure, the watcher with the error. No call follows a failure.
    pub fn advance(self, outcome: NativeOutcome) -> (step: Step<C>)
        ensures
            step@ == self@.advance(outcome),
            step matches Step::Pending(attempt) ==> attempt@.well_formed(),
    {
        proof {
            use_type_invariant(&self);
        }
        let Attempt { calls, next, displaced, goal } = self;
        let total = calls.len();
        match outcome {
            NativeOutcome::Completed => {
                if next + 1 < total {
                    Step::Pending(Attempt { calls, next: next + 1, displaced: None, goal })
                } else {
                    Step::Finished(BLEWatcher { state: goal }, Ok(()))
                }
            },
            NativeOutcome::Failed(description) => {
                match displaced {
                    Some(callback) => Step::Finished(
                        BLEWatcher { state: WatcherState::Armed(callback) },
                        Err(WatcherError::ScanStop(description)),
                    ),
                    None => Step::Finished(
                        BLEWatcher { state: WatcherState::Disarmed },
                        Err(WatcherError::ScanConfig(description)),
                    ),
                }
            },
        }
    }
}

} // verus!
