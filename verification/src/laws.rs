//! What holds of the watcher whatever the filter, the session and the platform's answers.
//!
//! The laws speak of the views of the watcher and of its attempts, which are what the
//! contracts of the executable functions speak of, and of [`NativeSession`], the model of
//! what a call does to a session once the platform reports it complete.

use crate::calls::{failure_of, lemma_stop_only_leads, start_calls, NativeCall, ScanningMode};
use crate::error::{NativeOutcome, WatcherError};
use crate::filter::ScanFilter;
use crate::session::{guids, NativeSession};
use crate::watcher::{AttemptView, StepView, WatcherState};
use vstd::prelude::*;

verus! {

/// Every start begins as a well-formed operation.
pub proof fn lemma_begin_start_well_formed<C>(
    state: WatcherState<C>,
    services: Seq<u128>,
    on_received: C,
)
    ensures
        state.begin_start(services, on_received).well_formed(),
{
    let begun = state.begin_start(services, on_received);
    assert forall|i: int| 0 <= i < begun.calls.len() implies (begun.calls[i] == NativeCall::Stop
        <==> state is Armed && i == 0) by {
        lemma_stop_only_leads(state is Armed, services, i);
    }
}

/// A completed call that is not the last one leads to the call after it and changes
/// nothing else of the operation but that the session is disarmed from then on.
pub proof fn lemma_advance_keeps_well_formed<C>(attempt: AttemptView<C>, outcome: NativeOutcome)
    requires
        attempt.well_formed(),
    ensures
        attempt.advance(outcome) matches StepView::Pending(next) ==> {
            &&& outcome == NativeOutcome::Completed
            &&& next.well_formed()
            &&& next.calls == attempt.calls
            &&& next.position == attempt.position + 1
            &&& next.goal == attempt.goal
            &&& next.displaced is None
        },
{
}

/// Every operation comes to an end: once the platform has answered as many calls as were
/// left, or has failed one of them, there is no further call to make.
pub proof fn lemma_run_ends<C>(attempt: AttemptView<C>, outcomes: Seq<NativeOutcome>)
    requires
        attempt.well_formed(),
        outcomes.len() >= attempt.remaining(),
    ensures
        attempt.run(outcomes) is Finished,
    decreases outcomes.len(),
{
    match attempt.advance(outcomes.first()) {
        StepView::Pending(next) => {
            lemma_advance_keeps_well_formed(attempt, outcomes.first());
            lemma_run_ends(next, outcomes.drop_first());
        },
        StepView::Finished(_, _) => {},
    }
}

/// An operation succeeds when every call that is left completes: the watcher reaches
/// the goal of the operation.
pub proof fn lemma_run_all_completed<C>(attempt: AttemptView<C>, outcomes: Seq<NativeOutcome>)
    requires
        attempt.well_formed(),
        outcomes.len() >= attempt.remaining(),
        forall|i: int| 0 <= i < attempt.remaining() ==> outcomes[i] == NativeOutcome::Completed,
    ensures
        attempt.run(outcomes) == StepView::Finished(attempt.goal, Ok(())),
    decreases outcomes.len(),
{
    match attempt.advance(outcomes.first()) {
        StepView::Pending(next) => {
            lemma_advance_keeps_well_formed(attempt, outcomes.first());
            let rest = outcomes.drop_first();
            lemma_run_all_completed(next, rest);
        },
        StepView::Finished(_, _) => {},
    }
}

/// An operation succeeds only when every call that is left completes: a success means
/// that the platform answered each of the calls, in order, and none with a failure.
pub proof fn lemma_run_success_is_complete<C>(attempt: AttemptView<C>, outcomes: Seq<NativeOutcome>)
    requires
        attempt.well_formed(),
        attempt.run(outcomes) matches StepView::Finished(_, Ok(_)),
    ensures
        attempt.run(outcomes) == StepView::Finished(attempt.goal, Ok(())),
        outcomes.len() >= attempt.remaining(),
        forall|i: int| 0 <= i < attempt.remaining() ==> outcomes[i] == NativeOutcome::Completed,
    decreases outcomes.len(),
{
    match attempt.advance(outcomes.first()) {
        StepView::Pending(next) => {
            lemma_advance_keeps_well_formed(attempt, outcomes.first());
            let rest = outcomes.drop_first();
            lemma_run_success_is_complete(next, rest);
            assert forall|i: int| 0 <= i < attempt.remaining() implies outcomes[i]
                == NativeOutcome::Completed by {
                if i > 0 {
                    assert(rest[i - 1] == outcomes[i]);
                }
            }
        },
        StepView::Finished(_, _) => {},
    }
}

/// An operation ends with the first call that fails: no later call is made, the error
/// is the one that stands for the failed call and carries the platform's description, and
/// the watcher is disarmed, unless the very call that was to disarm it failed, in which
/// case it is left as it was.
pub proof fn lemma_run_first_failure<C>(
    attempt: AttemptView<C>,
    outcomes: Seq<NativeOutcome>,
    failed: int,
    description: String,
)
    requires
        attempt.well_formed(),
        0 <= failed < attempt.remaining(),
        failed < outcomes.len(),
        forall|i: int| 0 <= i < failed ==> outcomes[i] == NativeOutcome::Completed,
        outcomes[failed] == NativeOutcome::Failed(description),
    ensures
        attempt.run(outcomes) == StepView::Finished(
            if failed == 0 {
                attempt.fallback()
            } else {
                WatcherState::<C>::Disarmed
            },
            Err(failure_of(attempt.calls[attempt.position + failed], description)),
        ),
    decreases failed,
{
    if failed > 0 {
        lemma_advance_keeps_well_formed(attempt, outcomes.first());
        let next = attempt.advance(outcomes.first())->Pending_0;
        let rest = outcomes.drop_first();
        lemma_run_first_failure(next, rest, failed - 1, description);
    }
}

/// A start arms the watcher with the new callback exactly when the platform completes
/// every one of its calls.
pub proof fn lemma_start_succeeds_iff_all_complete<C>(
    state: WatcherState<C>,
    services: Seq<u128>,
    on_received: C,
    outcomes: Seq<NativeOutcome>,
)
    requires
        outcomes.len() == start_calls(state is Armed, services).len(),
    ensures
        ({
            let end = state.begin_start(services, on_received).run(outcomes);
            let all = forall|i: int|
                0 <= i < outcomes.len() ==> outcomes[i] == NativeOutcome::Completed;
            &&& all ==> end == StepView::Finished(WatcherState::Armed(on_received), Ok(()))
            &&& end matches StepView::Finished(_, Ok(_)) ==> all
        }),
{
    let begun = state.begin_start(services, on_received);
    lemma_begin_start_well_formed(state, services, on_received);
    if forall|i: int| 0 <= i < outcomes.len() ==> outcomes[i] == NativeOutcome::Completed {
        lemma_run_all_completed(begun, outcomes);
    }
    if begun.run(outcomes) matches StepView::Finished(_, Ok(_)) {
        lemma_run_success_is_complete(begun, outcomes);
    }
}

/// A start of a disarmed watcher that fails at any of its calls, the arming call
/// included, fails as a scan configuration error with the platform's description and
/// leaves the watcher disarmed: no callback is held, so nothing is delivered.
pub proof fn lemma_failed_start_stays_disarmed<C, E>(
    services: Seq<u128>,
    on_received: C,
    outcomes: Seq<NativeOutcome>,
    failed: int,
    description: String,
    event: Option<E>,
)
    requires
        0 <= failed < start_calls(false, services).len(),
        failed < outcomes.len(),
        forall|i: int| 0 <= i < failed ==> outcomes[i] == NativeOutcome::Completed,
        outcomes[failed] == NativeOutcome::Failed(description),
    ensures
        WatcherState::<C>::Disarmed.begin_start(services, on_received).run(outcomes)
            == StepView::Finished(
            WatcherState::<C>::Disarmed,
            Err(WatcherError::ScanConfig(description)),
        ),
        WatcherState::<C>::Disarmed.delivery(event) is None,
{
    let begun = WatcherState::<C>::Disarmed.begin_start(services, on_received);
    lemma_begin_start_well_formed(WatcherState::<C>::Disarmed, services, on_received);
    lemma_stop_only_leads(false, services, failed);
    lemma_run_first_failure(begun, outcomes, failed, description);
}

/// The end of a stop, given the platform's answer to the disarming call where one is
/// made.
pub open spec fn stop_end<C>(state: WatcherState<C>, outcome: NativeOutcome) -> StepView<C> {
    match state.begin_stop() {
        StepView::Pending(attempt) => attempt.advance(outcome),
        finished => finished,
    }
}

/// Every stop ends after at most one call. A stop of a disarmed watcher succeeds and
/// changes nothing, however often it is asked for. A stop of an armed watcher succeeds
/// exactly when the disarming call completes; a failure is reported as a stop error with
/// the platform's description and leaves the watcher armed with its callback.
pub proof fn lemma_stop_ends<C>(state: WatcherState<C>, outcome: NativeOutcome)
    ensures
        stop_end(state, outcome) == (match (state, outcome) {
            (WatcherState::Armed(callback), NativeOutcome::Failed(description)) => StepView::Finished(
                WatcherState::Armed(callback),
                Err(WatcherError::ScanStop(description)),
            ),
            _ => StepView::Finished(WatcherState::<C>::Disarmed, Ok(())),
        }),
{
}

/// After a stop that succeeded the watcher passes no advertisement on, whatever the
/// platform still hands over.
pub proof fn lemma_nothing_delivered_after_stop<C, E>(
    state: WatcherState<C>,
    outcome: NativeOutcome,
    event: Option<E>,
)
    requires
        stop_end(state, outcome) matches StepView::Finished(_, Ok(_)),
    ensures
        stop_end(state, outcome) matches StepView::Finished(stopped, _) && stopped.delivery(event)
            is None,
{
}

/// An armed watcher passes on every advertisement that the platform hands over,
/// whatever the filter it was started with; what reaches it is for the session's filter
/// alone to decide.
pub proof fn lemma_armed_delivers_all<C, E>(callback: C, payload: E)
    ensures
        WatcherState::Armed(callback).delivery(Some(payload)) == Some((callback, payload)),
{
}

/// After a start that succeeded, the platform has completed every call of the start, the
/// watcher is armed with the new callback, and a session on which those calls took effect
/// holds exactly the identifiers of the filter, in any order and with nothing left of an
/// earlier filter.
pub proof fn lemma_successful_start_installs_filter<C>(
    state: WatcherState<C>,
    filter: ScanFilter,
    on_received: C,
    outcomes: Seq<NativeOutcome>,
    before: NativeSession,
)
    requires
        state.begin_start(filter.services@, on_received).run(outcomes) matches StepView::Finished(
            _,
            Ok(_),
        ),
    ensures
        ({
            let begun = state.begin_start(filter.services@, on_received);
            let after = before.after_all(begun.calls);
            &&& begun.run(outcomes) == StepView::Finished(WatcherState::Armed(on_received), Ok(()))
            &&& outcomes.len() >= begun.calls.len()
            &&& forall|i: int|
                0 <= i < begun.calls.len() ==> outcomes[i] == NativeOutcome::Completed
            &&& after.identifiers() == filter.ids()
            &&& after.service_uuids.len() == filter.services@.len()
            &&& after.listening && after.handler_registered
            &&& after.scanning_mode == ScanningMode::Active && after.extended_advertisements
        }),
{
    let begun = state.begin_start(filter.services@, on_received);
    lemma_begin_start_well_formed(state, filter.services@, on_received);
    lemma_run_success_is_complete(begun, outcomes);
    before.lemma_start_calls_install(state is Armed, filter.services@);
}

/// After a start with an empty filter that succeeded, the session's filter names no
/// service, so that it restricts nothing, and the watcher passes on every advertisement
/// that the session hands it.
pub proof fn lemma_empty_filter_restricts_nothing<C, E>(
    state: WatcherState<C>,
    filter: ScanFilter,
    on_received: C,
    outcomes: Seq<NativeOutcome>,
    before: NativeSession,
    payload: E,
)
    requires
        filter.services@.len() == 0,
        state.begin_start(filter.services@, on_received).run(outcomes) matches StepView::Finished(
            _,
            Ok(_),
        ),
    ensures
        ({
            let begun = state.begin_start(filter.services@, on_received);
            let after = before.after_all(begun.calls);
            &&& after.service_uuids.len() == 0
            &&& after.identifiers() == Set::<u128>::empty()
            &&& after.listening
            &&& begun.run(outcomes) matches StepView::Finished(started, _) && started.delivery(
                Some(payload),
            ) == Some((on_received, payload))
        }),
{
    lemma_successful_start_installs_filter(state, filter, on_received, outcomes, before);
}

/// Start, stop, start again with another filter, each with success: the watcher is
/// armed with the second callback, which gets every advertisement that the session hands
/// over, and the session holds the identifiers of the second filter and none of the
/// first.
pub proof fn lemma_start_stop_start<C, E>(
    first: ScanFilter,
    first_callback: C,
    first_outcomes: Seq<NativeOutcome>,
    stop_outcome: NativeOutcome,
    second: ScanFilter,
    second_callback: C,
    second_outcomes: Seq<NativeOutcome>,
    before: NativeSession,
    payload: E,
)
    requires
        ({
            let started = WatcherState::<C>::Disarmed.begin_start(first.services@, first_callback).run(
                first_outcomes,
            );
            &&& started matches StepView::Finished(_, Ok(_))
            &&& stop_end(started->Finished_0, stop_outcome) matches StepView::Finished(_, Ok(_))
            &&& stop_end(started->Finished_0, stop_outcome)->Finished_0.begin_start(
                second.services@,
                second_callback,
            ).run(second_outcomes) matches StepView::Finished(_, Ok(_))
        }),
    ensures
        ({
            let started = WatcherState::<C>::Disarmed.begin_start(first.services@, first_callback).run(
                first_outcomes,
            )->Finished_0;
            let stopped = stop_end(started, stop_outcome)->Finished_0;
            let again = stopped.begin_start(second.services@, second_callback);
            let session = before.after_all(start_calls(false, first.services@)).after(
                NativeCall::Stop,
            ).after_all(again.calls);
            &&& started == WatcherState::Armed(first_callback)
            &&& stopped == WatcherState::<C>::Disarmed
            &&& again.run(second_outcomes) == StepView::Finished(
                WatcherState::Armed(second_callback),
                Ok(()),
            )
            &&& WatcherState::Armed(second_callback).delivery(Some(payload)) == Some(
                (second_callback, payload),
            )
            &&& session.identifiers() == second.ids()
            &&& session.service_uuids == guids(second.services@)
            &&& session.listening
        }),
{
    let disarmed = WatcherState::<C>::Disarmed;
    lemma_successful_start_installs_filter(
        disarmed,
        first,
        first_callback,
        first_outcomes,
        before,
    );
    lemma_stop_ends(WatcherState::Armed(first_callback), stop_outcome);
    let between = before.after_all(start_calls(false, first.services@)).after(NativeCall::Stop);
    lemma_successful_start_installs_filter(
        disarmed,
        second,
        second_callback,
        second_outcomes,
        between,
    );
    between.lemma_start_calls_install(false, second.services@);
}

/// A start on an armed watcher leaves a session as a stop followed by a start on the
/// disarmed watcher does.
pub proof fn lemma_restart_is_stop_then_start(before: NativeSession, services: Seq<u128>)
    ensures
        before.after_all(start_calls(true, services)) == before.after(NativeCall::Stop).after_all(
            start_calls(false, services),
        ),
{
    before.lemma_start_calls_install(true, services);
    before.after(NativeCall::Stop).lemma_start_calls_install(false, services);
}

} // verus!
