//! Laws of a prompt's turns.
use vstd::prelude::*;

use crate::agent_engine::{
    attempt_end, boundary_events_of, last_assistant, loop_after, loop_step, turn_result,
    ActionView, BoundaryRequests, BoundaryRun, FinalMessage, Forwarding, LoopEventView,
    LoopMessage, LoopView, MessageKind, OverflowArmRun, StageView, StopReason, TurnAdmission,
    TurnOnce, TurnView,
};
use crate::auto_compaction::AutoCompactionRun;
use crate::engine::EventView;
use crate::text::opt_text;

verus! {

/// How the last turn of a run of events ended, where one did.
pub open spec fn last_turn(events: Seq<LoopEventView>) -> Option<TurnView>
    decreases events.len(),
{
    if events.len() == 0 {
        None
    } else {
        match events.last() {
            LoopEventView::Turned(result) => Some(result),
            _ => last_turn(events.drop_last()),
        }
    }
}

/// What is done after the last of a run of events.
pub open spec fn last_action(prompt: Seq<char>, events: Seq<LoopEventView>) -> ActionView {
    loop_step(loop_after(prompt, events.drop_last()), events.last()).1
}

/// What a stage knows of the turn before it: a failed turn is looked at with its
/// error, and only a turn that settled with a message is followed up.
spec fn stage_knows(stage: StageView, turn: Option<TurnView>) -> bool {
    match stage {
        StageView::Overflow { error } => turn == Some(TurnView::Error { error, answered: true }),
        StageView::Boundary
        | StageView::PostCompaction
        | StageView::Driver
        | StageView::Continuation { .. } => turn == Some(TurnView::Message),
        _ => true,
    }
}

proof fn lemma_stages_know(prompt: Seq<char>, events: Seq<LoopEventView>)
    ensures
        stage_knows(loop_after(prompt, events).stage, last_turn(events)),
    decreases events.len(),
{
    if events.len() > 0 {
        lemma_stages_know(prompt, events.drop_last());
    }
}

/// A prompt ends as its last turn did. It is done without an error, or with the
/// driver's row, only where its last turn settled with a message; it is done
/// with an error only where its last turn failed with that very error, or where
/// the continuation of a settled turn was not taken; and its requests are dropped
/// only where its last turn was aborted.
pub proof fn law_prompts_end_as_their_last_turn(prompt: Seq<char>, events: Seq<LoopEventView>)
    requires
        events.len() > 0,
    ensures
        match last_action(prompt, events) {
            ActionView::Done(None) => last_turn(events) == Some(TurnView::Message),
            ActionView::RowThenDone(row) => last_turn(events) == Some(TurnView::Message)
                && events.last() == (LoopEventView::Stop { row }),
            ActionView::Done(Some(error)) => (last_turn(events) matches Some(
                TurnView::Error { error: failure, .. },
            ) && failure == error) || (last_turn(events) == Some(TurnView::Message)
                && events.last() == (LoopEventView::Continued { accepted: false })),
            ActionView::DropRequestsThenDone(error) => events.last() == LoopEventView::Turned(
                TurnView::Aborted,
            ) && error is Some,
            _ => true,
        },
{
    lemma_stages_know(prompt, events.drop_last());
}

/// The error of a failed turn is never lost: a turn that failed without a
/// message ends the prompt with its error, and one that failed with a message
/// does so unless the overflow arm asks for another try or an event was refused.
pub proof fn law_turn_errors_end_the_prompt(
    prompt: Seq<char>,
    before: Seq<LoopEventView>,
    error: Seq<char>,
    run: OverflowArmRun,
)
    requires
        loop_after(prompt, before).stage == StageView::Turn,
    ensures
        ({
            let unanswered = LoopEventView::Turned(TurnView::Error { error, answered: false });
            let answered = LoopEventView::Turned(TurnView::Error { error, answered: true });
            let looked_at = before.push(answered).push(LoopEventView::Overflowed(run));
            &&& last_action(prompt, before.push(unanswered)) == ActionView::Done(Some(error))
            &&& last_action(prompt, before.push(answered)) == ActionView::RunOverflowArm
            &&& run == OverflowArmRun::NotApplicable || run == OverflowArmRun::Finished ==> last_action(
                prompt,
                looked_at,
            ) == ActionView::Done(Some(error))
            &&& run == OverflowArmRun::Cancelled ==> last_action(prompt, looked_at)
                == ActionView::Silent
            &&& run == OverflowArmRun::RetryTurn ==> last_action(prompt, looked_at)
                == ActionView::LookAfterStaleOverflow
        }),
{
    let unanswered = LoopEventView::Turned(TurnView::Error { error, answered: false });
    let answered = LoopEventView::Turned(TurnView::Error { error, answered: true });
    let failed = before.push(answered);
    let looked_at = failed.push(LoopEventView::Overflowed(run));
    assert(before.push(unanswered).drop_last() =~= before);
    assert(failed.drop_last() =~= before);
    assert(looked_at.drop_last() =~= failed);
    assert(loop_after(prompt, failed) == loop_step(loop_after(prompt, before), answered).0);
}

/// Every turn that settled with a message is served: its requests come first,
/// then the threshold is checked, then the driver is asked; a driver that wants
/// nothing ends the prompt well, and a continuation it wants is told as it is.
pub proof fn law_settled_turns_are_followed_up(
    state: LoopView,
    compacted: AutoCompactionRun,
    text: Seq<char>,
)
    requires
        state.stage == StageView::Turn,
        compacted != AutoCompactionRun::Cancelled,
    ensures
        ({
            let settled = loop_step(state, LoopEventView::Turned(TurnView::Message));
            let served = loop_step(settled.0, LoopEventView::Served(BoundaryRun::Proceed));
            let checked = loop_step(served.0, LoopEventView::Compacted(compacted));
            let wanted = loop_step(checked.0, LoopEventView::Continue { text });
            let told = loop_step(wanted.0, LoopEventView::Continued { accepted: true });
            &&& settled.1 == ActionView::ServeRequests
            &&& served.1 == ActionView::CheckThreshold
            &&& checked.1 == ActionView::AskDriver
            &&& loop_step(checked.0, LoopEventView::Inactive).1 == ActionView::Done(None)
            &&& wanted.1 == (ActionView::TellContinuation { text })
            &&& told.1 == ActionView::LookAfterStaleOverflow
            &&& told.0.prompt == text
            &&& loop_step(
                settled.0,
                LoopEventView::Served(BoundaryRun::StoppedForCompaction),
            ).1 == ActionView::Done(None)
        }),
{
}

/// Before every turn a stale overflow is looked after and the threshold checked,
/// and then the prompt that is due runs: none of it runs once an event was
/// refused.
pub proof fn law_turns_are_prepared(state: LoopView, compacted: AutoCompactionRun)
    requires
        state.stage == StageView::PreOverflow,
    ensures
        ({
            let looked = loop_step(state, LoopEventView::PreOverflow { accepted: true });
            let checked = loop_step(looked.0, LoopEventView::Compacted(compacted));
            &&& loop_step(state, LoopEventView::PreOverflow { accepted: false }).1
                == ActionView::Silent
            &&& looked.1 == ActionView::CheckThreshold
            &&& compacted == AutoCompactionRun::Cancelled <==> checked.1 == ActionView::Silent
            &&& compacted != AutoCompactionRun::Cancelled ==> checked.1 == (ActionView::RunTurn {
                admission: if state.overflow_retry {
                    TurnAdmission::Continue
                } else {
                    TurnAdmission::FreshPrompt
                },
                prompt: state.prompt,
                with_images: state.first,
            }) && checked.0.stage == StageView::Turn
        }),
{
}

/// What brings each action about: a turn runs only after its threshold was
/// checked, requests are served only after a turn that settled, the overflow arm
/// runs only after one that failed with a message, and the driver is asked only
/// after the check that follows a settled turn.
pub proof fn law_actions_have_their_cause(state: LoopView, event: LoopEventView)
    ensures
        match loop_step(state, event).1 {
            ActionView::LookAfterStaleOverflow => event == LoopEventView::Overflowed(
                OverflowArmRun::RetryTurn,
            ) || event == (LoopEventView::Continued { accepted: true }),
            ActionView::CheckThreshold => event == (LoopEventView::PreOverflow { accepted: true })
                || event == LoopEventView::Served(BoundaryRun::Proceed),
            ActionView::RunTurn { .. } => state.stage == StageView::PreCompaction && event
                is Compacted && event != LoopEventView::Compacted(AutoCompactionRun::Cancelled),
            ActionView::RunOverflowArm => event matches LoopEventView::Turned(
                TurnView::Error { answered, .. },
            ) && answered,
            ActionView::ServeRequests => event == LoopEventView::Turned(TurnView::Message),
            ActionView::AskDriver => state.stage == StageView::PostCompaction && event is Compacted
                && event != LoopEventView::Compacted(AutoCompactionRun::Cancelled),
            ActionView::TellContinuation { text } => event == (LoopEventView::Continue { text }),
            ActionView::Silent => event == (LoopEventView::PreOverflow { accepted: false })
                || event == LoopEventView::Compacted(AutoCompactionRun::Cancelled) || event
                == LoopEventView::Overflowed(OverflowArmRun::Cancelled) || event
                == LoopEventView::Served(BoundaryRun::Cancelled)
                || !crate::agent_engine::expected(state.stage, event),
            ActionView::Done(None) => event is Inactive || event == LoopEventView::Served(
                BoundaryRun::StoppedForCompaction,
            ),
            ActionView::Done(Some(error)) => event is Turned || event is Overflowed || (event == (
            LoopEventView::Continued { accepted: false }) && error == "No response produced."@),
            ActionView::DropRequestsThenDone(error) => error == Some("No response produced."@),
            ActionView::RowThenDone(row) => event == (LoopEventView::Stop { row }),
        },
        state.stage == StageView::Driver ==> loop_step(state, LoopEventView::Inactive).1
            == ActionView::Done(None),
        state.stage == StageView::Turn ==> loop_step(
            state,
            LoopEventView::Turned(TurnView::Aborted),
        ).1 == ActionView::DropRequestsThenDone(Some("No response produced."@)),
        forall|row: crate::json::JsonView|
            state.stage == StageView::Driver ==> #[trigger] loop_step(
                state,
                LoopEventView::Stop { row },
            ).1 == ActionView::RowThenDone(row),
        state.stage is Continuation ==> loop_step(
            state,
            LoopEventView::Continued { accepted: false },
        ).1 is Done,
{
}

/// A turn's result says what its last message says: it is a message exactly where
/// one came that neither failed nor was aborted, a failed message is an error
/// that carries the message's own text where it has one, and a turn without a
/// message fails with the very error it ended with.
pub proof fn law_turns_end_as_their_message(result: Result<FinalMessage, String>)
    ensures
        turn_result(result) == TurnView::Message <==> result is Ok && result->Ok_0.stop_reason
            != StopReason::Error && result->Ok_0.stop_reason != StopReason::Aborted,
        turn_result(result) == TurnView::Aborted <==> result is Ok && result->Ok_0.stop_reason
            == StopReason::Aborted,
        turn_result(result) matches TurnView::Error { error, answered } ==> answered == (result
            is Ok) && (result matches Err(failure) ==> error == failure@) && (result matches Ok(
            message,
        ) ==> (opt_text(message.error_message) matches Some(text) ==> (text.len() > 0 ==> error
            == text))),
        result matches Ok(message) ==> (message.stop_reason == StopReason::Error && (
        message.error_message is None || message.error_message->0@.len() == 0) ==> turn_result(
            result,
        ) == (TurnView::Error { error: "Assistant response failed"@, answered: true })),
{
}

proof fn lemma_last_assistant_is_last(messages: Seq<LoopMessage>)
    ensures
        -1 <= last_assistant(messages) < messages.len(),
        last_assistant(messages) >= 0 ==> messages[last_assistant(messages)].kind
            == MessageKind::Assistant,
        forall|j: int|
            last_assistant(messages) < j < messages.len() ==> (#[trigger] messages[j]).kind
                != MessageKind::Assistant,
    decreases messages.len(),
{
    if messages.len() > 0 {
        lemma_last_assistant_is_last(messages.drop_last());
        assert forall|j: int| last_assistant(messages) < j < messages.len() implies (
        #[trigger] messages[j]).kind != MessageKind::Assistant by {
            if j < messages.len() - 1 {
                assert(messages.drop_last()[j] == messages[j]);
            }
        }
        if last_assistant(messages) >= 0 && messages.last().kind != MessageKind::Assistant {
            assert(messages.drop_last()[last_assistant(messages)] == messages[last_assistant(
                messages,
            )]);
        }
    }
}

/// An attempt ends with the newest assistant message there is: a refused event
/// aborts it whatever else happened, an error fails it with that very error, and
/// else the message it gives is an assistant's that can be sent and that no other
/// assistant message follows. It has no answer only where there is no such one.
pub proof fn law_attempts_end_with_the_newest_answer(
    forwarding: Forwarding,
    messages: Seq<LoopMessage>,
)
    requires
        messages.len() <= usize::MAX,
    ensures
        forwarding.aborted <==> attempt_end(forwarding, messages) == TurnOnce::Aborted,
        attempt_end(forwarding, messages) matches TurnOnce::Failed { error } ==> forwarding.error
            == Some(error),
        !forwarding.aborted && forwarding.error is Some ==> attempt_end(
            forwarding,
            messages,
        ) is Failed,
        attempt_end(forwarding, messages) matches TurnOnce::Message { at } ==> forwarding.error
            is None && at < messages.len() && messages[at as int].kind == MessageKind::Assistant
            && messages[at as int].wire is Some && forall|j: int|
            at < j < messages.len() ==> (#[trigger] messages[j]).kind != MessageKind::Assistant,
        attempt_end(forwarding, messages) == TurnOnce::NoAnswer ==> forall|i: int|
            0 <= i < messages.len() && (#[trigger] messages[i]).kind == MessageKind::Assistant
                && messages[i].wire is Some ==> exists|j: int|
                i < j < messages.len() && (#[trigger] messages[j]).kind == MessageKind::Assistant,
{
    lemma_last_assistant_is_last(messages);
}

/// A turn boundary tells of the refinement last, and only where one of its edits
/// was applied; without a compaction it tells of nothing else.
pub proof fn law_boundaries_tell_of_applied_refinements(requests: BoundaryRequests)
    ensures
        requests.refinement matches Some(refinement) && refinement.applied_edits@.contains(true)
            ==> boundary_events_of(requests).len() > 0 && boundary_events_of(requests).last()
            == EventView::CustomMessage(requests.refinement->0.notice@),
        requests.compaction is None && !(requests.refinement matches Some(refinement)
            && refinement.applied_edits@.contains(true)) ==> boundary_events_of(requests).len()
            == 0,
        requests.compaction is None && (requests.refinement matches Some(refinement)
            && refinement.applied_edits@.contains(true)) ==> boundary_events_of(requests).len()
            == 1,
{
}

} // verus!
