//! Laws of the attempts at a turn, and of the calls made beside the turns.
use vstd::prelude::*;

use crate::agent_engine::{
    accounted, attempt_end, boundary_run, compaction_end, fails_over, is_attempt_result,
    is_looked_up, loop_step, readies_overflow, retried, retry_look, retry_told, side_call_end,
    spend_id, start_of, turn_result, ActionView, AttemptStart, AutoRetryEvent, BoundaryRun,
    CompactionCall, FinalMessage, ForwardEvent, Forwarding, LoopEventView, LoopMessage, LoopView,
    MessageKind, ModelRef, RegistryLookup, RetryWait, SideQuestionCall, StageView, StopReason,
    TurnAdmission, TurnOnce, TurnView,
};
use crate::auto_compaction::{check_run, due_event, AutoCompactionRun};
use crate::compaction::{result_json, start_json};
use crate::engine::{EventView, OutcomeView, SideOutcomeView};
use crate::json::opt_view;
use crate::session_commands::{command_end, CommandEnd, SessionCommandExecution};
use crate::text::{decimal, opt_text};

verus! {

/// The forwarding loop of a turn after a run of waits.
pub open spec fn forwarded(events: Seq<ForwardEvent>) -> Forwarding
    decreases events.len(),
{
    if events.len() == 0 {
        Forwarding { aborted: false, settled: false, closed: false, error: None }
    } else {
        forwarded(events.drop_last()).stepped(events.last())
    }
}

/// Whether an event of a wait was refused.
pub open spec fn refused(event: ForwardEvent) -> bool {
    match event {
        ForwardEvent::Handed { accepted } => !accepted,
        ForwardEvent::Closed => false,
        ForwardEvent::Settled { drained, .. } => !drained,
    }
}

/// A turn is aborted exactly where one of its events was refused, settled exactly
/// where it settled, and closed exactly where its events ended. It fails with an
/// error exactly where it settled with one, and with the last that came.
pub proof fn law_refused_events_abort_the_turn(events: Seq<ForwardEvent>)
    ensures
        forwarded(events).aborted <==> exists|i: int|
            0 <= i < events.len() && refused(#[trigger] events[i]),
        forwarded(events).settled <==> exists|i: int|
            0 <= i < events.len() && (#[trigger] events[i]) is Settled,
        forwarded(events).closed <==> exists|i: int|
            0 <= i < events.len() && (#[trigger] events[i]) is Closed,
        forwarded(events).error matches Some(error) ==> exists|i: int|
            0 <= i < events.len() && ((#[trigger] events[i]) matches ForwardEvent::Settled {
                error: Some(failure),
                ..
            } && failure == error),
        forwarded(events).error is None ==> forall|i: int|
            0 <= i < events.len() ==> !((#[trigger] events[i]) matches ForwardEvent::Settled {
                error: Some(_),
                ..
            }),
        events.len() > 0 ==> (events.last() matches ForwardEvent::Settled {
            error: Some(failure),
            ..
        } ==> forwarded(events).error == Some(failure)),
    decreases events.len(),
{
    if events.len() > 0 {
        let before = events.drop_last();
        let n = events.len() - 1;
        law_refused_events_abort_the_turn(before);
        assert(events[n] == events.last());
        assert forall|i: int| 0 <= i < n implies #[trigger] events[i] == before[i] by {}
        if forwarded(before).aborted {
            let i = choose|i: int| 0 <= i < before.len() && refused(#[trigger] before[i]);
            assert(refused(events[i]));
        }
        if forwarded(before).settled {
            let i = choose|i: int| 0 <= i < before.len() && (#[trigger] before[i]) is Settled;
            assert(events[i] is Settled);
        }
        if forwarded(before).closed {
            let i = choose|i: int| 0 <= i < before.len() && (#[trigger] before[i]) is Closed;
            assert(events[i] is Closed);
        }
        if forwarded(before).error is Some && forwarded(events).error == forwarded(before).error {
            let i = choose|i: int|
                0 <= i < before.len() && ((#[trigger] before[i]) matches ForwardEvent::Settled {
                    error: Some(failure),
                    ..
                } && Some(failure) == forwarded(before).error);
            assert(events[i] == before[i]);
        }
    }
}

/// An attempt's turn ends as the attempt did: an aborted one is aborted, a failed
/// one fails with its very error and one without an answer for the want of it, both
/// without a message, and one that ended with a message ends as that message says.
pub proof fn law_attempts_end_their_turn(
    result: Result<FinalMessage, String>,
    attempt: TurnOnce,
    stop_reason: StopReason,
    error_message: Option<String>,
)
    requires
        is_attempt_result(result, attempt, stop_reason, error_message),
    ensures
        attempt == TurnOnce::Aborted ==> turn_result(result) == TurnView::Aborted,
        attempt matches TurnOnce::Failed { error } ==> turn_result(result) == (TurnView::Error {
            error: error@,
            answered: false,
        }),
        attempt == TurnOnce::NoAnswer ==> turn_result(result) == (TurnView::Error {
            error: "No response produced."@,
            answered: false,
        }),
        attempt is Message ==> result is Ok && result->Ok_0.stop_reason == stop_reason
            && result->Ok_0.error_message == error_message,
        attempt is Message && stop_reason == StopReason::Error ==> (turn_result(
            result,
        ) matches TurnView::Error { error, answered } && answered && (error_message matches Some(
            text,
        ) ==> (text@.len() > 0 ==> error == text@))),
        attempt is Message && stop_reason == StopReason::Aborted ==> turn_result(result)
            == TurnView::Aborted,
        attempt is Message && stop_reason != StopReason::Error && stop_reason
            != StopReason::Aborted ==> turn_result(result) == TurnView::Message,
{
}

/// A refused event aborts a turn from the wait it came in to the turn's end,
/// whatever the transcript holds.
pub proof fn law_refusals_reach_the_turn(
    events: Seq<ForwardEvent>,
    messages: Seq<LoopMessage>,
    result: Result<FinalMessage, String>,
    stop_reason: StopReason,
    error_message: Option<String>,
    i: int,
)
    requires
        0 <= i < events.len(),
        refused(events[i]),
        is_attempt_result(
            result,
            attempt_end(forwarded(events), messages),
            stop_reason,
            error_message,
        ),
    ensures
        turn_result(result) == TurnView::Aborted,
{
    law_refused_events_abort_the_turn(events);
}

/// Only the first attempt of a fresh prompt prompts the session; every other one
/// goes on from where the session stands.
pub proof fn law_prompts_are_sent_once(admission: TurnAdmission, attempt: u32, later: u32)
    ensures
        start_of(admission, attempt) == AttemptStart::Prompt ==> attempt == 0 && admission
            == TurnAdmission::FreshPrompt,
        start_of(TurnAdmission::FreshPrompt, 0) == AttemptStart::Prompt,
        attempt < later ==> start_of(admission, later) == AttemptStart::DropAndContinue,
        admission != TurnAdmission::FreshPrompt ==> start_of(admission, attempt)
            == AttemptStart::DropAndContinue,
{
}

/// A retried transcript loses at most its last message, and exactly where that is
/// the assistant's; whatever stands before it stays as it was.
pub proof fn law_retries_drop_the_failed_answer(messages: Seq<LoopMessage>, message: LoopMessage)
    ensures
        message.kind == MessageKind::Assistant ==> retried(messages.push(message)) == messages,
        message.kind != MessageKind::Assistant ==> retried(messages.push(message))
            == messages.push(message),
        retried(Seq::<LoopMessage>::empty()).len() == 0,
{
    assert(messages.push(message).drop_last() =~= messages);
}

/// The wait before a retry ends at once where it is aborted, ends in the retry where
/// its time is over, and else goes on for a short pause.
pub proof fn law_retry_waits_end(aborted: bool, deadline_passed: bool)
    ensures
        retry_look(aborted, deadline_passed) == RetryWait::Stop <==> aborted,
        retry_look(aborted, deadline_passed) == RetryWait::Retry <==> deadline_passed && !aborted,
        retry_look(aborted, deadline_passed) matches RetryWait::Sleep { ms } ==> 0 < ms <= 50,
{
}

/// The worker is told of a retry with all it says, and of its end likewise; only a
/// retry by a backup fails over.
pub proof fn law_retries_are_told(event: AutoRetryEvent)
    ensures
        event matches AutoRetryEvent::Start {
            attempt,
            max_attempts,
            delay_ms,
            error_message,
            reason,
        } ==> (retry_told(event) matches EventView::AutoRetryStart {
            attempt: told_attempt,
            max_attempts: told_max,
            delay_ms: told_delay,
            error_message: told_error,
            backup,
        } && told_attempt == attempt && told_max == max_attempts && told_delay == delay_ms
            && told_error == error_message@ && backup == reason.backup() && (fails_over(event)
            <==> reason is Backup)),
        event matches AutoRetryEvent::End {
            success,
            attempt,
            final_error,
            restored_model,
        } ==> (retry_told(event) matches EventView::AutoRetryEnd {
            success: told_success,
            attempt: told_attempt,
            final_error: told_error,
            restored_model: told_model,
        } && told_success == success && told_attempt == attempt && told_error == opt_text(
            final_error,
        ) && told_model == opt_text(restored_model) && !fails_over(event)),
{
}

/// A refused event cancels a prompt at a turn's boundary whatever else holds; else a
/// boundary that compacted stops the turns there, and any other lets them go on.
pub proof fn law_boundaries_stop_for_a_reason(state: LoopView, stops: bool, all_accepted: bool)
    requires
        state.stage == StageView::Boundary,
    ensures
        boundary_run(stops, all_accepted) == BoundaryRun::Cancelled <==> !all_accepted,
        boundary_run(stops, all_accepted) == BoundaryRun::StoppedForCompaction <==> stops
            && all_accepted,
        boundary_run(stops, all_accepted) == BoundaryRun::Proceed <==> !stops && all_accepted,
        !all_accepted ==> loop_step(
            state,
            LoopEventView::Served(boundary_run(stops, all_accepted)),
        ).1 == ActionView::Silent,
{
}

/// A message that failed counts toward nothing, one that was aborted spends nothing
/// of the goal, and any other does both; two messages are counted under the same id
/// only where they came at the same time.
pub proof fn law_settled_messages_count(stop_reason: StopReason, timestamp: u64)
    ensures
        accounted(stop_reason) <==> stop_reason != StopReason::Error,
        spend_id(stop_reason, timestamp) is None <==> stop_reason == StopReason::Error
            || stop_reason == StopReason::Aborted,
        spend_id(stop_reason, timestamp) matches Some(id) ==> id == "a-"@ + decimal(
            timestamp as nat,
        ),
        spend_id(stop_reason, timestamp) is Some ==> accounted(stop_reason),
{
}

/// Only a failed turn leaves the overflow arm spent.
pub proof fn law_settled_turns_ready_the_overflow_arm(result: TurnView)
    ensures
        readies_overflow(result) <==> result == TurnView::Message || result == TurnView::Aborted,
{
}

/// A session compacts exactly where the compaction ran, with all that it gave, and
/// what kept it from running is told as it was.
pub proof fn law_compaction_calls_end_as_they_went(call: CompactionCall)
    ensures
        compaction_end(call) is Compacted <==> call is Ran,
        compaction_end(call) is Aborted <==> call is Aborted,
        compaction_end(call) is Skipped <==> call is Skipped,
        compaction_end(call) is Failed <==> call is Failed || call is Unavailable,
        call matches CompactionCall::Ran {
            summary,
            first_kept_entry_id,
            tokens_before,
            usage,
        } ==> (compaction_end(call) matches OutcomeView::Compacted { result, usage: spent }
            && result == result_json(summary@, first_kept_entry_id@, tokens_before) && spent
            == opt_view(usage)),
        call matches CompactionCall::Skipped(message) ==> (compaction_end(
            call,
        ) matches OutcomeView::Skipped { message: told } && told == message@),
        call matches CompactionCall::Failed(error) ==> (compaction_end(
            call,
        ) matches OutcomeView::Failed { error: told } && told == error@),
        call matches CompactionCall::Unavailable(error) ==> (compaction_end(
            call,
        ) matches OutcomeView::Failed { error: told } && told == error@),
{
}

/// A side question ends as its call did and keeps every word of the answer it got;
/// a failed one says why.
pub proof fn law_side_calls_keep_their_answer(call: SideQuestionCall)
    ensures
        call matches SideQuestionCall::Complete { answer } ==> (side_call_end(
            call,
        ) matches SideOutcomeView::Complete { answer: told } && told == answer@),
        call matches SideQuestionCall::Cancelled { answer } ==> (side_call_end(
            call,
        ) matches SideOutcomeView::Aborted { answer: told } && told == answer@),
        call matches SideQuestionCall::Error { answer, message } ==> (side_call_end(
            call,
        ) matches SideOutcomeView::Failed { answer: told, error } && told == answer@ && (
        message matches Some(message) ==> error == message@) && (message is None ==> error
            == "Side question failed"@)),
        call matches SideQuestionCall::Unavailable(error) ==> (side_call_end(
            call,
        ) matches SideOutcomeView::Failed { answer: told, error: why } && told.len() == 0 && why
            == error@),
{
}

/// A lookup finds the model that was named, or none and the reason; where none is
/// named it finds the start-up choice before any other, and fails only where there
/// is no model at all.
pub proof fn law_lookups_find_the_named_model(
    result: Result<ModelRef, String>,
    lookup: RegistryLookup,
)
    requires
        is_looked_up(result, lookup),
    ensures
        lookup matches RegistryLookup::Named { model: Some(model), error: None } ==> result is Ok
            && result->Ok_0@ == model@,
        lookup matches RegistryLookup::Named { error: Some(error), .. } ==> result is Err
            && result->Err_0@ == error@,
        lookup matches RegistryLookup::Named { model: None, error: None } ==> result is Err
            && result->Err_0@ == "No matching model found."@,
        lookup matches RegistryLookup::Unnamed { startup: Some(model), .. } ==> result is Ok
            && result->Ok_0@ == model@,
        lookup matches RegistryLookup::Unnamed { startup: None, first: Some(model) } ==> result
            is Ok && result->Ok_0@ == model@,
        lookup matches RegistryLookup::Unnamed { startup: None, first: None } ==> result is Err
            && result->Err_0@
            == "No models available. Check your installation or add models to models.json."@,
{
}

/// A command ends in silence exactly where an event of it was refused; else it ends
/// with its error where it has one, runs its continuation where it has one, and is
/// done well only where it has neither.
pub proof fn law_commands_end_as_they_went(execution: SessionCommandExecution, accepted: bool)
    ensures
        command_end(execution, accepted) == CommandEnd::Silent <==> !accepted,
        command_end(execution, accepted) == CommandEnd::Done(Ok(())) <==> accepted
            && execution.error is None && execution.continuation_prompt is None,
        accepted ==> (execution.error matches Some(error) ==> command_end(execution, accepted)
            == CommandEnd::Done(Err(error))),
        accepted && execution.error is None ==> (execution.continuation_prompt matches Some(prompt)
            ==> command_end(execution, accepted) == (CommandEnd::Turns { prompt })),
{
}

/// A threshold compaction begins exactly where the session has a model and its
/// context is over the threshold, and is told as one of the threshold.
pub proof fn law_due_compactions_begin(model_resolved: bool, context_over_threshold: Option<bool>)
    ensures
        due_event(model_resolved, context_over_threshold) is Some <==> model_resolved
            && context_over_threshold == Some(true),
        due_event(model_resolved, context_over_threshold) matches Some(event) ==> event == (
        EventView::CompactionStart { event: start_json("threshold"@, None) }),
{
}

/// A threshold check ran exactly where it was due, its session was there, and every
/// event of it was taken; it is cancelled only where one was refused.
pub proof fn law_checks_run_where_due(
    due: bool,
    start_accepted: bool,
    session_there: bool,
    events_accepted: bool,
)
    ensures
        check_run(due, start_accepted, session_there, events_accepted) == AutoCompactionRun::Ran
            <==> due && start_accepted && session_there && events_accepted,
        check_run(due, start_accepted, session_there, events_accepted)
            == AutoCompactionRun::Cancelled <==> due && (!start_accepted || (session_there
            && !events_accepted)),
        check_run(due, start_accepted, session_there, events_accepted) == AutoCompactionRun::NotDue
            <==> !due || (start_accepted && !session_there),
{
}

} // verus!
