//! Laws of the scripted engine and of side questions.
use vstd::prelude::*;

use crate::engine::{
    after_stage, cancels, count_of, default_compaction, delay_in, failure_details,
    is_compaction_plan, is_side_message, is_side_plan, is_sleep_step, next_index, no_details,
    policy_in, present, responses_in, script_of, scripted_message, scripted_outcome,
    settled_compaction, side_event, side_outcome, stage_event, text_in, CompactionPlan, EventView,
    OutcomeView, PromptRun, PromptStage, ScriptedEngine, ScriptView, SideMessage, SideOutcomeView,
    SideQuestionOutcome, SideQuestionRequest, SideTurnPlan, SLEEP_SLICE_MS, SleepStep,
};
use crate::json::{group_members, or_empty, JsonView};

verus! {

/// A scripted prompt tells of the user's message, an update, the scripted answer and
/// its end, each once and in this order.
pub proof fn law_scripted_prompts_tell_all(message: Seq<char>, text: Seq<char>, now: u64)
    ensures
        stage_event(PromptStage::User, message, text, now) matches Some(EventView::UserMessage(row))
            && row.carries("content"@, JsonView::Str(message)) && row.carries(
            "role"@,
            JsonView::Str("user"@),
        ) && row.carries("timestamp"@, JsonView::uint(now)),
        stage_event(PromptStage::Update, message, text, now) is Some && (stage_event(
            PromptStage::Update,
            message,
            text,
            now,
        )->0 is AssistantUpdate),
        stage_event(PromptStage::Message, message, text, now) == Some(
            EventView::AssistantMessage(scripted_message(text, now)),
        ),
        stage_event(PromptStage::Done, message, text, now) == Some(EventView::Done(None)),
        stage_event(PromptStage::Finished, message, text, now) is None,
        after_stage(PromptStage::User) == PromptStage::Update,
        after_stage(PromptStage::Update) == PromptStage::Message,
        after_stage(PromptStage::Message) == PromptStage::Done,
        after_stage(PromptStage::Done) == PromptStage::Finished,
        after_stage(PromptStage::Finished) == PromptStage::Finished,
        scripted_message(text, now).carries("content"@, JsonView::Str(text)),
        scripted_message(text, now).carries("role"@, JsonView::Str("assistant"@)),
        scripted_message(text, now).carries("timestamp"@, JsonView::uint(now)),
{
    broadcast use group_members;

}

/// A prompt is cancelled exactly where one of its events was refused before it was
/// done.
pub proof fn law_refused_events_cancel(stage: PromptStage, accepted: bool)
    ensures
        accepted ==> !cancels(stage, accepted),
        !accepted && (stage == PromptStage::Update || stage == PromptStage::Message || stage
            == PromptStage::Done) ==> cancels(stage, accepted),
        stage == PromptStage::User || stage == PromptStage::Finished ==> !cancels(stage, accepted),
{
}

/// A script spells its answers, its side questions, its compactions and its retries
/// itself, and what it leaves out is none; its compactions start with the first.
pub proof fn law_scripts_spell_themselves(script: JsonView, side: JsonView, key: Seq<char>)
    ensures
        script.get("responses"@) matches Some(JsonView::Array(items)) ==> script_of(
            script,
        ).responses == items,
        script.get("responses"@) is None ==> script_of(script).responses.len() == 0,
        script.get("sideQuestion"@) == Some(side) ==> script_of(script).side_responses
            == responses_in(side),
        script.get("sideQuestion"@) is None ==> script_of(script).side_responses.len() == 0
            && script_of(script).retry is None,
        script.get("sideQuestion"@) == Some(side) && side.get("retry"@) is Some ==> script_of(
            script,
        ).retry == Some(policy_in(side.get("retry"@)->0)),
        script.get("compaction"@) == Some(side) ==> script_of(script).compactions == responses_in(
            side,
        ),
        script.get("compaction"@) is None ==> script_of(script).compactions.len() == 0,
        script_of(script).next_compaction == 0,
        policy_in(side).enabled <==> side.get_bool("enabled"@) != Some(false),
        policy_in(side).base_delay_ms == count_of(side, "baseDelayMs"@),
        policy_in(side).max_retry_delay_ms == count_of(side, "maxRetryDelayMs"@),
        policy_in(side).max_retries == count_of(side, "maxRetries"@) as u32,
        side.get_u64(key) matches Some(n) ==> count_of(side, key) == n,
        side.get_u64(key) is None ==> count_of(side, key) == 0,
{
}

/// A scripted answer is its text, plain or named, after its pause of a minute at
/// most.
pub proof fn law_scripted_answers_are_their_text(text: Seq<char>, response: JsonView)
    ensures
        text_in(JsonView::Str(text)) == text,
        response is Object && response.get_str("text"@) == Some(text) ==> text_in(response) == text,
        delay_in(response) <= 60_000,
        count_of(response, "delayMs"@) <= 60_000 ==> delay_in(response) == count_of(
            response,
            "delayMs"@,
        ),
        count_of(response, "delayMs"@) > 60_000 ==> delay_in(response) == 60_000,
{
}

/// A side question ends as its last message did, with what was answered by then; a
/// failure keeps its error.
pub proof fn law_side_questions_end_as_they_went(text: String, error: String)
    ensures
        side_outcome(Ok(SideMessage::Answered { text })) == (SideOutcomeView::Complete {
            answer: text@,
        }),
        side_outcome(Ok(SideMessage::Aborted { text })) == (SideOutcomeView::Aborted {
            answer: text@,
        }),
        side_outcome(Ok(SideMessage::Failed { text, error: Some(error) })) == (
        SideOutcomeView::Failed { answer: text@, error: error@ }),
        side_outcome(Ok(SideMessage::Failed { text, error: None })) == (SideOutcomeView::Failed {
            answer: text@,
            error: "Side question failed"@,
        }),
        side_outcome(Err(error)) == (SideOutcomeView::Failed {
            answer: Seq::empty(),
            error: error@,
        }),
{
}

/// A scripted attempt fails exactly where it is scripted to, with its own error and
/// classification, and else streams its own text.
pub proof fn law_scripted_attempts_do_as_scripted(plan: SideTurnPlan, entry: JsonView)
    requires
        is_side_plan(plan, entry),
    ensures
        plan is Fail <==> entry.get_str("error"@) is Some,
        plan matches SideTurnPlan::Fail { error, details } ==> entry.get_str("error"@) == Some(
            error@,
        ) && details@ == failure_details(entry) && (entry.get_str("kind"@) matches Some(kind)
            ==> details@.carries("kind"@, JsonView::Str(kind))) && (entry.get_u64("status"@)
            matches Some(status) ==> details@.carries("status"@, JsonView::uint(status)))
            && (entry.get_u64("retryAfterMs"@) matches Some(ms) ==> details@.carries(
            "retryAfterMs"@,
            JsonView::uint(ms),
        )),
        plan matches SideTurnPlan::Stream { text, delay_ms } ==> text@ == text_in(entry)
            && delay_ms == delay_in(entry),
{
    broadcast use group_members;

}

/// A scripted compaction ends as it is scripted to: with its error, as skipped or
/// failed, or with its own summary, boundary, count and usage.
pub proof fn law_scripted_compactions_do_as_scripted(entry: JsonView, plan: CompactionPlan)
    ensures
        ({
            let outcome = scripted_outcome(entry);
            let error = entry.get_str("error"@);
            let skipped = entry.get_bool("skipped"@) == Some(true);
            &&& error is Some && skipped ==> outcome == (OutcomeView::Skipped { message: error->0 })
            &&& error is Some && !skipped ==> outcome == (OutcomeView::Failed { error: error->0 })
            &&& error is None ==> (outcome matches OutcomeView::Compacted { result, usage }
                && result.carries(
                "summary"@,
                JsonView::Str(or_empty(entry.get_str("summary"@))),
            ) && result.carries(
                "firstKeptEntryId"@,
                JsonView::Str(or_empty(entry.get_str("firstKeptEntryId"@))),
            ) && result.carries(
                "tokensBefore"@,
                JsonView::uint(count_of(entry, "tokensBefore"@)),
            ) && usage == present(entry.get("usage"@)) && (entry.get("details"@) matches Some(
                details,
            ) ==> result.carries("details"@, details)))
            &&& is_compaction_plan(plan, entry) && error is Some ==> (
            plan matches CompactionPlan::Settled(got) && got@ == outcome)
            &&& is_compaction_plan(plan, entry) && error is None ==> (
            plan matches CompactionPlan::Run { delay_ms, outcome: got } && got@ == outcome
                && delay_ms == delay_in(entry))
        }),
        present(Some(JsonView::Null)) is None,
        entry != JsonView::Null ==> present(Some(entry)) == Some(entry),
        default_compaction() is Compacted,
        no_details().carries("readFiles"@, JsonView::Array(Seq::empty())),
        no_details().carries("modifiedFiles"@, JsonView::Array(Seq::empty())),
{
    broadcast use group_members;

}

/// Scripted compactions are taken in turn, and from the top again behind the last.
pub proof fn law_scripted_compactions_take_turns(current: usize, len: nat)
    requires
        len <= usize::MAX,
    ensures
        current + 1 < len ==> next_index(current, len) == current + 1,
        current + 1 >= len ==> next_index(current, len) == 0,
{
}

/// A prompt is answered by the script's response of its place, after that response's
/// pause; behind the last one it is echoed at once. Its own message is told as it is.
pub proof fn law_prompts_get_their_response(
    script: ScriptView,
    run: PromptRun,
    prompt_index: usize,
    message: Seq<char>,
)
    requires
        ScriptedEngine::is_prompt_run(script, run, prompt_index, message),
    ensures
        run.message@ == message && run.stage == PromptStage::User,
        prompt_index < script.responses.len() ==> run.text@ == text_in(
            script.responses[prompt_index as int],
        ) && run.delay_ms == delay_in(script.responses[prompt_index as int]),
        prompt_index >= script.responses.len() ==> run.text@ == "echo: "@ + message
            && run.delay_ms == 0,
{
}

/// Each attempt at a side question takes the script's response of its own place, and
/// fails behind the last one.
pub proof fn law_attempts_get_their_response(
    script: ScriptView,
    result: Result<SideTurnPlan, String>,
    index: usize,
)
    requires
        ScriptedEngine::is_side_attempt(script, result, index),
    ensures
        result is Ok <==> index < script.side_responses.len(),
        result matches Ok(plan) ==> is_side_plan(plan, script.side_responses[index as int]),
        result matches Err(error) ==> error@ == "No more scripted side-question responses"@,
{
}

/// An attempt that fails by script fails whether it was stopped or not, and a streamed
/// answer keeps all its text: it is aborted exactly where it was stopped.
pub proof fn law_stopped_attempts_are_aborted(
    message: SideMessage,
    plan: SideTurnPlan,
    stopped: bool,
)
    requires
        is_side_message(message, plan, stopped),
    ensures
        plan matches SideTurnPlan::Fail { error, .. } ==> (message matches SideMessage::Failed {
            text,
            error: Some(told),
        } && text@.len() == 0 && told@ == error@),
        message is Aborted <==> plan is Stream && stopped,
        message is Answered <==> plan is Stream && !stopped,
        plan matches SideTurnPlan::Stream { text, .. } ==> (message matches SideMessage::Answered {
            text: told,
        } ==> told@ == text@),
        plan matches SideTurnPlan::Stream { text, .. } ==> (message matches SideMessage::Aborted {
            text: told,
        } ==> told@ == text@),
{
}

/// A pause ends at once where it is aborted, and completes exactly where it is not and
/// nothing remains; else it sleeps at most a slice, and what it slept and what remains
/// make up the whole.
pub proof fn law_pauses_end_in_time(step: SleepStep, remaining_ms: u64, aborted: bool)
    requires
        is_sleep_step(step, remaining_ms, aborted),
    ensures
        step == (SleepStep::Over { completed: true }) <==> !aborted && remaining_ms == 0,
        step == (SleepStep::Over { completed: false }) <==> aborted,
        step matches SleepStep::Slice { ms, remaining_ms: left } ==> ms + left == remaining_ms && 0
            < ms <= SLEEP_SLICE_MS && (left > 0 ==> ms == SLEEP_SLICE_MS),
{
}

/// A compaction that was let run is aborted exactly where it was stopped in its pause;
/// every other one ends as it was planned.
pub proof fn law_compactions_are_aborted_in_their_pause(plan: CompactionPlan, aborted: bool)
    ensures
        plan matches CompactionPlan::Settled(outcome) ==> settled_compaction(plan, aborted)
            == outcome@,
        plan matches CompactionPlan::Run { outcome, .. } ==> (!aborted ==> settled_compaction(
            plan,
            aborted,
        ) == outcome@),
        plan is Run && aborted ==> settled_compaction(plan, aborted) == OutcomeView::Aborted,
{
}

/// Beginning a compaction takes the script's next one, moves on by one, and changes
/// nothing else; without a script the default one comes.
pub proof fn law_compactions_are_begun_in_turn(
    before: ScriptView,
    after: ScriptView,
    plan: CompactionPlan,
)
    requires
        before.compactions.len() <= usize::MAX,
        ScriptedEngine::is_compaction_begun(before, after, plan),
    ensures
        before.compactions.len() == 0 ==> (plan matches CompactionPlan::Settled(outcome) && outcome@
            == default_compaction()),
        before.next_compaction < before.compactions.len() ==> is_compaction_plan(
            plan,
            before.compactions[before.next_compaction as int],
        ),
        before.next_compaction + 1 < before.compactions.len() ==> after.next_compaction
            == before.next_compaction + 1,
        before.next_compaction + 1 >= before.compactions.len() ==> after.next_compaction == 0,
        after.compactions == before.compactions && after.responses == before.responses
            && after.side_responses == before.side_responses,
{
}

/// The event of a side question carries the question it is for, the answer so far and
/// how it stands; it has an error exactly where there is one.
pub proof fn law_side_events_carry_the_answer(
    request: SideQuestionRequest,
    answer: Seq<char>,
    status: Seq<char>,
    error_message: Option<Seq<char>>,
)
    ensures
        ({
            let event = side_event(request, answer, status, error_message);
            &&& event.carries("id"@, JsonView::Str(request.side_question_id@))
            &&& event.carries("question"@, JsonView::Str(request.question@))
            &&& event.carries("answer"@, JsonView::Str(answer))
            &&& event.carries("status"@, JsonView::Str(status))
            &&& error_message matches Some(error) ==> event.carries(
                "errorMessage"@,
                JsonView::Str(error),
            )
        }),
{
    broadcast use group_members;

}

/// An outcome is sent with its own status, all of its answer, and its error exactly where
/// it failed.
pub proof fn law_outcomes_are_sent_whole(answer: Seq<char>, error: Seq<char>)
    ensures
        ({
            let complete = SideOutcomeView::Complete { answer };
            let aborted = SideOutcomeView::Aborted { answer };
            let failed = SideOutcomeView::Failed { answer, error };
            &&& SideQuestionOutcome::status_of(complete) == "complete"@
            &&& SideQuestionOutcome::status_of(aborted) == "cancelled"@
            &&& SideQuestionOutcome::status_of(failed) == "error"@
            &&& SideQuestionOutcome::answer_of(complete) == answer
            &&& SideQuestionOutcome::answer_of(aborted) == answer
            &&& SideQuestionOutcome::answer_of(failed) == answer
            &&& SideQuestionOutcome::error_of(failed) == Some(error)
            &&& SideQuestionOutcome::error_of(complete) is None
            &&& SideQuestionOutcome::error_of(aborted) is None
        }),
{
}

/// Without a script a side question is echoed, whole and whether it was stopped or not;
/// a script answers itself.
pub proof fn law_unscripted_questions_are_echoed(
    script: ScriptView,
    question: Seq<char>,
    stopped: bool,
)
    ensures
        ScriptedEngine::echo_of(script, question) is Some <==> script.side_responses.len() == 0,
        ScriptedEngine::echo_of(script, question) matches Some(echo) ==> echo == "echo: "@
            + question,
        stopped <==> ScriptedEngine::echo_outcome(question, stopped) is Aborted,
        !stopped <==> ScriptedEngine::echo_outcome(question, stopped) is Complete,
        SideQuestionOutcome::answer_of(ScriptedEngine::echo_outcome(question, stopped)) == question,
{
}

} // verus!
