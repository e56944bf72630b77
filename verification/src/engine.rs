//! The engine contract: prompts, the events of a turn, side questions and
//! compactions, and the scripted engine that replays them.
use vstd::prelude::*;

use crate::json::{
    duplicate_all, items_view, json_of_text, lemma_items_view, opt_view, or_empty, parse_json,
    Json, JsonView,
};
use crate::text::{concat2, opt_str, opt_text};

verus! {

/// One user prompt accepted by the engine.
#[derive(Debug, PartialEq, Eq)]
pub struct PromptRequest {
    pub message: String,
    pub source: String,
    pub agent_message_id: Option<String>,
}

/// The model a session's creator asked for. What is absent keeps the engine's
/// current selection.
#[derive(Debug, PartialEq, Eq)]
pub struct EngineModelSelection {
    pub provider: Option<String>,
    pub model: Option<String>,
    pub api_key: Option<String>,
    pub thinking: Option<String>,
}

/// Why a turn is tried again: on the same model, or on a backup model.
#[derive(Debug, PartialEq, Eq)]
pub enum RetryStartReason {
    SameModel,
    Backup { model: String },
}

impl RetryStartReason {
    /// The backup model, where the retry is on one.
    pub open spec fn backup(self) -> Option<Seq<char>> {
        match self {
            RetryStartReason::SameModel => None,
            RetryStartReason::Backup { model } => Some(model@),
        }
    }
}

/// The events an engine emits for one prompt, in order.
#[derive(Debug, PartialEq, Eq)]
pub enum EngineEvent {
    /// The user message that was accepted.
    UserMessage(Json),
    /// A row that is neither the user's nor the assistant's.
    CustomMessage(Json),
    /// A streamed assistant message so far, and the stream event behind it.
    AssistantUpdate { message: Json, stream_event: Option<Json> },
    /// A settled assistant message.
    AssistantMessage(Json),
    /// A settled tool result.
    ToolResultMessage(Json),
    ToolExecutionStart { tool_call_id: String, tool_name: String, args: Json },
    ToolExecutionUpdate { tool_call_id: String, partial_result: Json },
    ToolExecutionEnd { tool_call_id: String, result: Json, is_error: bool },
    /// The goal's new state.
    GoalUpdate { goal: Json },
    /// A compaction begins.
    CompactionStart { event: Json },
    /// A compaction ended; the entry is null where nothing was compacted.
    Compaction { entry: Json, event: Json },
    /// A provider failure is retried.
    AutoRetryStart {
        attempt: u32,
        max_attempts: u32,
        delay_ms: u64,
        error_message: String,
        reason: RetryStartReason,
    },
    /// The retrying ended.
    AutoRetryEnd {
        success: bool,
        attempt: u32,
        final_error: Option<String>,
        restored_model: Option<String>,
    },
    /// The prompt is done, well or not.
    Done(Result<(), String>),
}

/// The mathematical event behind an [`EngineEvent`].
#[verifier::ext_equal]
pub enum EventView {
    UserMessage(JsonView),
    CustomMessage(JsonView),
    AssistantUpdate { message: JsonView, stream_event: Option<JsonView> },
    AssistantMessage(JsonView),
    ToolResultMessage(JsonView),
    ToolExecutionStart { tool_call_id: Seq<char>, tool_name: Seq<char>, args: JsonView },
    ToolExecutionUpdate { tool_call_id: Seq<char>, partial_result: JsonView },
    ToolExecutionEnd { tool_call_id: Seq<char>, result: JsonView, is_error: bool },
    GoalUpdate { goal: JsonView },
    CompactionStart { event: JsonView },
    Compaction { entry: JsonView, event: JsonView },
    AutoRetryStart {
        attempt: u32,
        max_attempts: u32,
        delay_ms: u64,
        error_message: Seq<char>,
        backup: Option<Seq<char>>,
    },
    AutoRetryEnd {
        success: bool,
        attempt: u32,
        final_error: Option<Seq<char>>,
        restored_model: Option<Seq<char>>,
    },
    Done(Option<Seq<char>>),
}

impl View for EngineEvent {
    type V = EventView;

    open spec fn view(&self) -> EventView {
        match self {
            EngineEvent::UserMessage(message) => EventView::UserMessage(message@),
            EngineEvent::CustomMessage(message) => EventView::CustomMessage(message@),
            EngineEvent::AssistantUpdate { message, stream_event } => EventView::AssistantUpdate {
                message: message@,
                stream_event: opt_view(*stream_event),
            },
            EngineEvent::AssistantMessage(message) => EventView::AssistantMessage(message@),
            EngineEvent::ToolResultMessage(message) => EventView::ToolResultMessage(message@),
            EngineEvent::ToolExecutionStart {
                tool_call_id,
                tool_name,
                args,
            } => EventView::ToolExecutionStart {
                tool_call_id: tool_call_id@,
                tool_name: tool_name@,
                args: args@,
            },
            EngineEvent::ToolExecutionUpdate {
                tool_call_id,
                partial_result,
            } => EventView::ToolExecutionUpdate {
                tool_call_id: tool_call_id@,
                partial_result: partial_result@,
            },
            EngineEvent::ToolExecutionEnd {
                tool_call_id,
                result,
                is_error,
            } => EventView::ToolExecutionEnd {
                tool_call_id: tool_call_id@,
                result: result@,
                is_error: *is_error,
            },
            EngineEvent::GoalUpdate { goal } => EventView::GoalUpdate { goal: goal@ },
            EngineEvent::CompactionStart { event } => EventView::CompactionStart { event: event@ },
            EngineEvent::Compaction { entry, event } => EventView::Compaction {
                entry: entry@,
                event: event@,
            },
            EngineEvent::AutoRetryStart {
                attempt,
                max_attempts,
                delay_ms,
                error_message,
                reason,
            } => EventView::AutoRetryStart {
                attempt: *attempt,
                max_attempts: *max_attempts,
                delay_ms: *delay_ms,
                error_message: error_message@,
                backup: reason.backup(),
            },
            EngineEvent::AutoRetryEnd {
                success,
                attempt,
                final_error,
                restored_model,
            } => EventView::AutoRetryEnd {
                success: *success,
                attempt: *attempt,
                final_error: opt_text(*final_error),
                restored_model: opt_text(*restored_model),
            },
            EngineEvent::Done(result) => EventView::Done(
                match result {
                    Ok(_) => None,
                    Err(error) => Some(error@),
                },
            ),
        }
    }
}

/// An optional event.
pub open spec fn opt_event(event: Option<EngineEvent>) -> Option<EventView> {
    match event {
        Some(event) => Some(event@),
        None => None,
    }
}

/// The events of a run, by value.
pub open spec fn events_view(events: Seq<EngineEvent>) -> Seq<EventView> {
    Seq::new(events.len(), |i: int| events[i]@)
}

/// A compaction's guidance, where the user gave one.
#[derive(Debug, PartialEq, Eq)]
pub struct CompactionRequest {
    pub custom_instructions: Option<String>,
}

/// A compaction that ran: its result, and what its calls used.
#[derive(Debug, PartialEq, Eq)]
pub struct CompactionRun {
    pub result: Json,
    pub usage: Option<Json>,
}

/// How a compaction ended.
#[derive(Debug, PartialEq, Eq)]
pub enum CompactionOutcome {
    Compacted { run: CompactionRun },
    /// There was nothing to compact.
    Skipped { message: String },
    Aborted,
    Failed { error: String },
}

/// The mathematical outcome behind a [`CompactionOutcome`].
#[verifier::ext_equal]
pub enum OutcomeView {
    Compacted { result: JsonView, usage: Option<JsonView> },
    Skipped { message: Seq<char> },
    Aborted,
    Failed { error: Seq<char> },
}

impl View for CompactionOutcome {
    type V = OutcomeView;

    open spec fn view(&self) -> OutcomeView {
        match self {
            CompactionOutcome::Compacted { run } => OutcomeView::Compacted {
                result: run.result@,
                usage: opt_view(run.usage),
            },
            CompactionOutcome::Skipped { message } => OutcomeView::Skipped { message: message@ },
            CompactionOutcome::Aborted => OutcomeView::Aborted,
            CompactionOutcome::Failed { error } => OutcomeView::Failed { error: error@ },
        }
    }
}

/// One earlier exchange of a side conversation.
#[derive(Debug, PartialEq, Eq)]
pub struct SideQuestionTurn {
    pub question: String,
    pub answer: String,
}

/// One side question, and the exchanges replayed before it.
#[derive(Debug, PartialEq, Eq)]
pub struct SideQuestionRequest {
    pub side_question_id: String,
    pub question: String,
    pub previous_turns: Vec<SideQuestionTurn>,
}

/// How a side question ended.
#[derive(Debug, PartialEq, Eq)]
pub enum SideQuestionOutcome {
    Complete { answer: String },
    /// Aborted; the answer is what was streamed so far.
    Aborted { answer: String },
    Failed { answer: String, error: String },
}

/// The mathematical outcome behind a [`SideQuestionOutcome`].
#[verifier::ext_equal]
pub enum SideOutcomeView {
    Complete { answer: Seq<char> },
    Aborted { answer: Seq<char> },
    Failed { answer: Seq<char>, error: Seq<char> },
}

impl View for SideQuestionOutcome {
    type V = SideOutcomeView;

    open spec fn view(&self) -> SideOutcomeView {
        match self {
            SideQuestionOutcome::Complete { answer } => SideOutcomeView::Complete {
                answer: answer@,
            },
            SideQuestionOutcome::Aborted { answer } => SideOutcomeView::Aborted {
                answer: answer@,
            },
            SideQuestionOutcome::Failed { answer, error } => SideOutcomeView::Failed {
                answer: answer@,
                error: error@,
            },
        }
    }
}

pub const SIDE_QUESTION_STATUS_RUNNING: &'static str = "running";

pub const SIDE_QUESTION_STATUS_COMPLETE: &'static str = "complete";

pub const SIDE_QUESTION_STATUS_CANCELLED: &'static str = "cancelled";

pub const SIDE_QUESTION_STATUS_ERROR: &'static str = "error";

/// The event of a side question as it is sent.
pub open spec fn side_event(
    request: SideQuestionRequest,
    answer: Seq<char>,
    status: Seq<char>,
    error_message: Option<Seq<char>>,
) -> JsonView {
    JsonView::object().field("id"@, JsonView::Str(request.side_question_id@)).field(
        "question"@,
        JsonView::Str(request.question@),
    ).field("answer"@, JsonView::Str(answer)).field("status"@, JsonView::Str(status)).field_opt(
        "errorMessage"@,
        crate::protocol::opt_string(error_message),
    )
}

/// The event of a side question as it is sent.
pub fn side_question_event_value(
    request: &SideQuestionRequest,
    answer: &str,
    status: &str,
    error_message: Option<&str>,
) -> (r: Json)
    ensures
        r@ == side_event(*request, answer@, status@, opt_str(error_message)),
{
    Json::object().field("id", Json::string(request.side_question_id.as_str())).field(
        "question",
        Json::string(request.question.as_str()),
    ).field("answer", Json::string(answer)).field("status", Json::string(status)).field_opt_str(
        "errorMessage",
        error_message,
    )
}

impl SideQuestionOutcome {
    /// The status of an outcome as it is sent.
    pub open spec fn status_of(outcome: SideOutcomeView) -> Seq<char> {
        match outcome {
            SideOutcomeView::Complete { .. } => SIDE_QUESTION_STATUS_COMPLETE@,
            SideOutcomeView::Aborted { .. } => SIDE_QUESTION_STATUS_CANCELLED@,
            SideOutcomeView::Failed { .. } => SIDE_QUESTION_STATUS_ERROR@,
        }
    }

    /// The status of the outcome as it is sent.
    pub fn status_str(&self) -> (r: &'static str)
        ensures
            r@ == Self::status_of(self@),
    {
        match self {
            SideQuestionOutcome::Complete { .. } => SIDE_QUESTION_STATUS_COMPLETE,
            SideQuestionOutcome::Aborted { .. } => SIDE_QUESTION_STATUS_CANCELLED,
            SideQuestionOutcome::Failed { .. } => SIDE_QUESTION_STATUS_ERROR,
        }
    }

    /// The answer of an outcome.
    pub open spec fn answer_of(outcome: SideOutcomeView) -> Seq<char> {
        match outcome {
            SideOutcomeView::Complete { answer } => answer,
            SideOutcomeView::Aborted { answer } => answer,
            SideOutcomeView::Failed { answer, .. } => answer,
        }
    }

    /// The answer of the outcome, in part where it was aborted or failed.
    pub fn answer(&self) -> (r: &str)
        ensures
            r@ == Self::answer_of(self@),
    {
        match self {
            SideQuestionOutcome::Complete { answer } => answer.as_str(),
            SideQuestionOutcome::Aborted { answer } => answer.as_str(),
            SideQuestionOutcome::Failed { answer, .. } => answer.as_str(),
        }
    }

    /// The error of an outcome, where it failed.
    pub open spec fn error_of(outcome: SideOutcomeView) -> Option<Seq<char>> {
        match outcome {
            SideOutcomeView::Failed { error, .. } => Some(error),
            _ => None,
        }
    }

    /// The error of the outcome, where it failed.
    pub fn error_message(&self) -> (r: Option<&str>)
        ensures
            opt_str(r) == Self::error_of(self@),
    {
        match self {
            SideQuestionOutcome::Failed { error, .. } => Some(error.as_str()),
            _ => None,
        }
    }
}

/// How provider failures are retried.
#[derive(Debug, Clone, Copy, PartialEq, Eq, Structural)]
pub struct ProviderRetryPolicy {
    pub enabled: bool,
    pub max_retries: u32,
    pub base_delay_ms: u64,
    pub max_retry_delay_ms: u64,
}

/// A script of side-question results, one per attempt.
#[derive(Debug, PartialEq, Eq)]
pub struct SideQuestionScript {
    pub responses: Vec<Json>,
    pub retry: Option<ProviderRetryPolicy>,
}

/// A script of compaction results, one per run; the next to be used.
#[derive(Debug, PartialEq, Eq)]
pub struct CompactionScript {
    pub responses: Vec<Json>,
    pub next: usize,
}

/// An engine that replays a script of assistant messages for the first
/// prompts, and echoes the later ones.
#[derive(Debug, PartialEq, Eq)]
pub struct ScriptedEngine {
    pub responses: Vec<Json>,
    pub side_question: SideQuestionScript,
    pub compaction: CompactionScript,
}

/// The mathematical engine behind a [`ScriptedEngine`].
#[verifier::ext_equal]
pub struct ScriptView {
    pub responses: Seq<JsonView>,
    pub side_responses: Seq<JsonView>,
    pub retry: Option<ProviderRetryPolicy>,
    pub compactions: Seq<JsonView>,
    pub next_compaction: usize,
}

impl View for ScriptedEngine {
    type V = ScriptView;

    open spec fn view(&self) -> ScriptView {
        ScriptView {
            responses: items_view(self.responses@),
            side_responses: items_view(self.side_question.responses@),
            retry: self.side_question.retry,
            compactions: items_view(self.compaction.responses@),
            next_compaction: self.compaction.next,
        }
    }
}

/// The scripted responses of a value.
pub open spec fn responses_in(value: JsonView) -> Seq<JsonView> {
    match value.get("responses"@) {
        Some(JsonView::Array(items)) => items,
        _ => Seq::empty(),
    }
}

/// The retry policy that a script spells: on unless it says otherwise, and zero
/// for what it leaves out.
pub open spec fn policy_in(retry: JsonView) -> ProviderRetryPolicy {
    ProviderRetryPolicy {
        enabled: match retry.get_bool("enabled"@) {
            Some(enabled) => enabled,
            None => true,
        },
        max_retries: count_of(retry, "maxRetries"@) as u32,
        base_delay_ms: count_of(retry, "baseDelayMs"@),
        max_retry_delay_ms: count_of(retry, "maxRetryDelayMs"@),
    }
}

/// A number of a script, or zero.
pub open spec fn count_of(value: JsonView, key: Seq<char>) -> u64 {
    match value.get_u64(key) {
        Some(n) => n,
        None => 0,
    }
}

/// The engine that a script spells.
pub open spec fn script_of(script: JsonView) -> ScriptView {
    ScriptView {
        responses: responses_in(script),
        side_responses: match script.get("sideQuestion"@) {
            Some(side) => responses_in(side),
            None => Seq::empty(),
        },
        retry: match script.get("sideQuestion"@) {
            Some(side) => match side.get("retry"@) {
                Some(retry) => Some(policy_in(retry)),
                None => None,
            },
            None => None,
        },
        compactions: match script.get("compaction"@) {
            Some(compaction) => responses_in(compaction),
            None => Seq::empty(),
        },
        next_compaction: 0,
    }
}

fn script_responses(value: &Json) -> (r: Vec<Json>)
    ensures
        items_view(r@) == responses_in(value@),
{
    match value.get("responses") {
        Some(responses) => match responses.as_array() {
            Some(items) => duplicate_all(items),
            None => no_items(),
        },
        None => no_items(),
    }
}

fn no_items() -> (r: Vec<Json>)
    ensures
        items_view(r@) == Seq::<JsonView>::empty(),
{
    let r: Vec<Json> = Vec::new();
    proof {
        lemma_items_view(r@);
    }
    assert(items_view(r@) =~= Seq::empty());
    r
}

fn script_count(value: &Json, key: &str) -> (r: u64)
    ensures
        r == count_of(value@, key@),
{
    match value.get_u64(key) {
        Some(n) => n,
        None => 0,
    }
}

impl Default for ScriptedEngine {
    /// An engine without a script.
    fn default() -> (r: ScriptedEngine)
        ensures
            r@ == (ScriptView {
                responses: Seq::empty(),
                side_responses: Seq::empty(),
                retry: None,
                compactions: Seq::empty(),
                next_compaction: 0,
            }),
    {
        ScriptedEngine {
            responses: no_items(),
            side_question: SideQuestionScript { responses: no_items(), retry: None },
            compaction: CompactionScript { responses: no_items(), next: 0 },
        }
    }
}

/// What a scripted prompt emits next.
#[derive(Debug, Clone, Copy, PartialEq, Eq, Structural)]
pub enum PromptStage {
    User,
    Update,
    Message,
    Done,
    Finished,
}

/// One scripted prompt: how long it waits first, its messages, and the event
/// that is next.
#[derive(Debug, PartialEq, Eq)]
pub struct PromptRun {
    pub delay_ms: u64,
    pub message: String,
    pub text: String,
    pub stage: PromptStage,
}

/// The usage of scripted messages.
pub open spec fn usage_json() -> JsonView {
    JsonView::object().field("input"@, JsonView::uint(120)).field("output"@, JsonView::uint(8)).field(
        "cacheRead"@,
        JsonView::uint(0),
    ).field("cacheWrite"@, JsonView::uint(0)).field("totalTokens"@, JsonView::uint(128)).field(
        "cost"@,
        JsonView::object().field("input"@, JsonView::uint(0)).field(
            "output"@,
            JsonView::uint(0),
        ).field("cacheRead"@, JsonView::uint(0)).field("cacheWrite"@, JsonView::uint(0)).field(
            "total"@,
            JsonView::uint(0),
        ),
    )
}

/// The usage of scripted messages.
pub fn scripted_usage() -> (r: Json)
    ensures
        r@ == usage_json(),
{
    Json::object().field("input", Json::uint(120)).field("output", Json::uint(8)).field(
        "cacheRead",
        Json::uint(0),
    ).field("cacheWrite", Json::uint(0)).field("totalTokens", Json::uint(128)).field(
        "cost",
        Json::object().field("input", Json::uint(0)).field("output", Json::uint(0)).field(
            "cacheRead",
            Json::uint(0),
        ).field("cacheWrite", Json::uint(0)).field("total", Json::uint(0)),
    )
}

/// A scripted assistant message.
pub open spec fn scripted_message(text: Seq<char>, now: u64) -> JsonView {
    JsonView::object().field("role"@, JsonView::Str("assistant"@)).field(
        "content"@,
        JsonView::Str(text),
    ).field("provider"@, JsonView::Str("scripted"@)).field("model"@, JsonView::Str("faux-1"@)).field(
        "usage"@,
        usage_json(),
    ).field("timestamp"@, JsonView::uint(now))
}

fn scripted_message_value(text: &str, now: u64) -> (r: Json)
    ensures
        r@ == scripted_message(text@, now),
{
    Json::object().field("role", Json::string("assistant")).field(
        "content",
        Json::string(text),
    ).field("provider", Json::string("scripted")).field("model", Json::string("faux-1")).field(
        "usage",
        scripted_usage(),
    ).field("timestamp", Json::uint(now))
}

/// The event of a stage.
pub open spec fn stage_event(
    stage: PromptStage,
    message: Seq<char>,
    text: Seq<char>,
    now: u64,
) -> Option<EventView> {
    match stage {
        PromptStage::User => Some(
            EventView::UserMessage(
                JsonView::object().field("role"@, JsonView::Str("user"@)).field(
                    "content"@,
                    JsonView::Str(message),
                ).field("timestamp"@, JsonView::uint(now)),
            ),
        ),
        PromptStage::Update => Some(
            EventView::AssistantUpdate {
                message: scripted_message(""@, now),
                stream_event: None,
            },
        ),
        PromptStage::Message => Some(EventView::AssistantMessage(scripted_message(text, now))),
        PromptStage::Done => Some(EventView::Done(None)),
        PromptStage::Finished => None,
    }
}

/// The stage after one.
pub open spec fn after_stage(stage: PromptStage) -> PromptStage {
    match stage {
        PromptStage::User => PromptStage::Update,
        PromptStage::Update => PromptStage::Message,
        PromptStage::Message => PromptStage::Done,
        PromptStage::Done => PromptStage::Finished,
        PromptStage::Finished => PromptStage::Finished,
    }
}

/// Whether a run ends here as cancelled: an event was refused, and the prompt
/// is not done yet.
pub open spec fn cancels(stage: PromptStage, accepted: bool) -> bool {
    !accepted && stage != PromptStage::User && stage != PromptStage::Finished
}

impl PromptRun {
    /// The next event of the run, given whether the last one was accepted; none
    /// once the run is finished. A refused event cancels the run.
    pub fn next(&mut self, accepted: bool, now: u64) -> (r: Option<EngineEvent>)
        ensures
            cancels(old(self).stage, accepted) ==> opt_event(r) == Some(
                EventView::Done(Some("prompt cancelled"@)),
            ) && final(self).stage == PromptStage::Finished,
            !cancels(old(self).stage, accepted) ==> opt_event(r) == stage_event(
                old(self).stage,
                old(self).message@,
                old(self).text@,
                now,
            ) && final(self).stage == after_stage(old(self).stage),
            final(self).message == old(self).message,
            final(self).text == old(self).text,
            final(self).delay_ms == old(self).delay_ms,
    {
        if !accepted {
            match self.stage {
                PromptStage::User | PromptStage::Finished => {},
                _ => {
                    self.stage = PromptStage::Finished;
                    return Some(EngineEvent::Done(Err("prompt cancelled".to_owned())));
                },
            }
        }
        match self.stage {
            PromptStage::User => {
                self.stage = PromptStage::Update;
                Some(
                    EngineEvent::UserMessage(
                        Json::object().field("role", Json::string("user")).field(
                            "content",
                            Json::string(self.message.as_str()),
                        ).field("timestamp", Json::uint(now)),
                    ),
                )
            },
            PromptStage::Update => {
                self.stage = PromptStage::Message;
                Some(
                    EngineEvent::AssistantUpdate {
                        message: scripted_message_value("", now),
                        stream_event: None,
                    },
                )
            },
            PromptStage::Message => {
                self.stage = PromptStage::Done;
                Some(
                    EngineEvent::AssistantMessage(scripted_message_value(self.text.as_str(), now)),
                )
            },
            PromptStage::Done => {
                self.stage = PromptStage::Finished;
                Some(EngineEvent::Done(Ok(())))
            },
            PromptStage::Finished => None,
        }
    }
}

/// The stage of a run after its events were answered.
pub open spec fn stage_after(answers: Seq<bool>) -> PromptStage
    decreases answers.len(),
{
    if answers.len() == 0 {
        PromptStage::User
    } else {
        let stage = stage_after(answers.drop_last());
        if cancels(stage, answers.last()) {
            PromptStage::Finished
        } else {
            after_stage(stage)
        }
    }
}

/// A prompt ends: after four further steps it is finished, whatever its events
/// were answered, and a refused event finishes it at once.
pub proof fn law_prompts_end(answers: Seq<bool>, accepted: bool)
    ensures
        answers.len() >= 4 ==> stage_after(answers) == PromptStage::Finished,
        answers.len() >= 1 && !accepted ==> stage_after(answers.push(accepted))
            == PromptStage::Finished,
    decreases answers.len(),
{
    assert(answers.push(accepted).drop_last() =~= answers);
    if answers.len() >= 1 {
        let a = answers.drop_last();
        if answers.len() >= 5 {
            law_prompts_end(a, accepted);
        } else {
            reveal_with_fuel(stage_after, 6);
        }
    }
}

/// The text of a scripted response.
pub open spec fn text_in(response: JsonView) -> Seq<char> {
    match response {
        JsonView::Str(text) => text,
        JsonView::Object(_) => or_empty(response.get_str("text"@)),
        _ => Seq::empty(),
    }
}

/// The pause of a scripted response, a minute at most.
pub open spec fn delay_in(response: JsonView) -> u64 {
    let delay = count_of(response, "delayMs"@);
    if delay < 60_000 {
        delay
    } else {
        60_000
    }
}

/// The result of a compaction that was not scripted.
pub open spec fn default_compaction() -> OutcomeView {
    OutcomeView::Compacted {
        result: JsonView::object().field(
            "summary"@,
            JsonView::Str("scripted compaction summary"@),
        ).field("firstKeptEntryId"@, JsonView::Str(""@)).field(
            "tokensBefore"@,
            JsonView::uint(0),
        ).field("details"@, no_details()),
        usage: None,
    }
}

/// The details of a compaction that touched no files.
pub open spec fn no_details() -> JsonView {
    JsonView::object().field("readFiles"@, JsonView::Array(Seq::empty())).field(
        "modifiedFiles"@,
        JsonView::Array(Seq::empty()),
    )
}

/// The details of a compaction that touched no files.
pub fn no_details_value() -> (r: Json)
    ensures
        r@ == no_details(),
{
    Json::object().field("readFiles", Json::empty_array()).field(
        "modifiedFiles",
        Json::empty_array(),
    )
}

/// A value that is there and not null.
pub open spec fn present(value: Option<JsonView>) -> Option<JsonView> {
    match value {
        Some(JsonView::Null) => None,
        other => other,
    }
}

/// How a scripted compaction ends unless it is aborted.
pub open spec fn scripted_outcome(entry: JsonView) -> OutcomeView {
    match entry.get_str("error"@) {
        Some(error) => if entry.get_bool("skipped"@) == Some(true) {
            OutcomeView::Skipped { message: error }
        } else {
            OutcomeView::Failed { error }
        },
        None => OutcomeView::Compacted {
            result: JsonView::object().field(
                "summary"@,
                JsonView::Str(or_empty(entry.get_str("summary"@))),
            ).field(
                "firstKeptEntryId"@,
                JsonView::Str(or_empty(entry.get_str("firstKeptEntryId"@))),
            ).field("tokensBefore"@, JsonView::uint(count_of(entry, "tokensBefore"@))).field(
                "details"@,
                match entry.get("details"@) {
                    Some(details) => details,
                    None => no_details(),
                },
            ),
            usage: present(entry.get("usage"@)),
        },
    }
}

/// How a compaction goes: settled at once, or after a pause unless it is
/// aborted.
#[derive(Debug, PartialEq, Eq)]
pub enum CompactionPlan {
    Settled(CompactionOutcome),
    Run { delay_ms: u64, outcome: CompactionOutcome },
}

/// The index of the next compaction after one: the first again behind the last.
pub open spec fn next_index(current: usize, len: nat) -> usize {
    if current + 1 >= len {
        0
    } else {
        (current + 1) as usize
    }
}

/// What one attempt at a side question does: fail, or stream its answer and
/// pause.
#[derive(Debug, PartialEq, Eq)]
pub enum SideTurnPlan {
    Fail { error: String, details: Json },
    Stream { text: String, delay_ms: u64 },
}

/// The message that one attempt ended with.
#[derive(Debug, PartialEq, Eq)]
pub enum SideMessage {
    Answered { text: String },
    Aborted { text: String },
    Failed { text: String, error: Option<String> },
}

impl ScriptedEngine {
    /// The engine of a script.
    pub fn from_value(script: &Json) -> (r: ScriptedEngine)
        ensures
            r@ == script_of(script@),
    {
        let side_question = match script.get("sideQuestion") {
            Some(side) => SideQuestionScript {
                responses: script_responses(side),
                retry: match side.get("retry") {
                    Some(retry) => Some(
                        ProviderRetryPolicy {
                            enabled: match retry.get_bool("enabled") {
                                Some(enabled) => enabled,
                                None => true,
                            },
                            max_retries: script_count(retry, "maxRetries") as u32,
                            base_delay_ms: script_count(retry, "baseDelayMs"),
                            max_retry_delay_ms: script_count(retry, "maxRetryDelayMs"),
                        },
                    ),
                    None => None,
                },
            },
            None => SideQuestionScript { responses: no_items(), retry: None },
        };
        let compactions = match script.get("compaction") {
            Some(compaction) => script_responses(compaction),
            None => no_items(),
        };
        ScriptedEngine {
            responses: script_responses(script),
            side_question,
            compaction: CompactionScript { responses: compactions, next: 0 },
        }
    }

    /// The engine of a script's text; a text that does not parse gives the
    /// parser's error.
    pub fn from_text(content: &str) -> (r: Result<ScriptedEngine, String>)
        ensures
            match (json_of_text(content@), r) {
                (Ok(script), Ok(engine)) => engine@ == script_of(script),
                (Err(message), Err(error)) => error@ == message,
                _ => false,
            },
    {
        match parse_json(content) {
            Ok(script) => Ok(ScriptedEngine::from_value(&script)),
            Err(message) => Err(message),
        }
    }

    /// The text of a scripted response.
    pub fn response_text(response: &Json) -> (r: String)
        ensures
            r@ == text_in(response@),
    {
        match response {
            Json::Str(text) => text.clone(),
            Json::Object(_) => response.get_string_or_empty("text"),
            _ => String::new(),
        }
    }

    /// The pause of a scripted response.
    pub fn response_delay_ms(response: &Json) -> (r: u64)
        ensures
            r == delay_in(response@),
    {
        let delay = script_count(response, "delayMs");
        if delay < 60_000 {
            delay
        } else {
            60_000
        }
    }

    /// What the engine reports of its model.
    pub fn model_metadata(&self) -> (r: Json)
        ensures
            r@ == JsonView::object().field("id"@, JsonView::Str("faux-1"@)).field(
                "provider"@,
                JsonView::Str("scripted"@),
            ).field("reasoning"@, JsonView::Bool(false)),
    {
        Json::object().field("id", Json::string("faux-1")).field(
            "provider",
            Json::string("scripted"),
        ).field("reasoning", Json::Bool(false))
    }

    /// Whether a run is the one that a prompt begins.
    pub open spec fn is_prompt_run(
        script: ScriptView,
        run: PromptRun,
        prompt_index: usize,
        message: Seq<char>,
    ) -> bool {
        &&& run.message@ == message
        &&& run.stage == PromptStage::User
        &&& prompt_index < script.responses.len() ==> run.text@ == text_in(
            script.responses[prompt_index as int],
        ) && run.delay_ms == delay_in(script.responses[prompt_index as int])
        &&& prompt_index >= script.responses.len() ==> run.text@ == "echo: "@ + message
            && run.delay_ms == 0
    }

    /// Begin a prompt: the scripted response of its index, or the echo of its
    /// message where the script is used up.
    pub fn run_prompt(&self, prompt_index: usize, request: &PromptRequest) -> (r: PromptRun)
        ensures
            Self::is_prompt_run(self@, r, prompt_index, request.message@),
    {
        proof {
            lemma_items_view(self.responses@);
        }
        if prompt_index < self.responses.len() {
            let response = &self.responses[prompt_index];
            PromptRun {
                delay_ms: ScriptedEngine::response_delay_ms(response),
                message: request.message.clone(),
                text: ScriptedEngine::response_text(response),
                stage: PromptStage::User,
            }
        } else {
            PromptRun {
                delay_ms: 0,
                message: request.message.clone(),
                text: concat2("echo: ", request.message.as_str()),
                stage: PromptStage::User,
            }
        }
    }

    /// The answer to a side question that is not scripted.
    pub open spec fn echo_of(script: ScriptView, question: Seq<char>) -> Option<Seq<char>> {
        if script.side_responses.len() == 0 {
            Some("echo: "@ + question)
        } else {
            None
        }
    }

    /// The answer to a side question that is not scripted: the question's echo.
    /// None where side questions are scripted.
    pub fn unscripted_side_answer(&self, question: &str) -> (r: Option<String>)
        ensures
            opt_text(r) == Self::echo_of(self@, question@),
    {
        proof {
            lemma_items_view(self.side_question.responses@);
        }
        if self.side_question.responses.len() == 0 {
            Some(concat2("echo: ", question))
        } else {
            None
        }
    }

    /// How a side question that is not scripted ends.
    pub open spec fn echo_outcome(answer: Seq<char>, stopped: bool) -> SideOutcomeView {
        if stopped {
            SideOutcomeView::Aborted { answer: answer }
        } else {
            SideOutcomeView::Complete { answer: answer }
        }
    }

    /// How a side question that is not scripted ends, by whether an abort or its
    /// listener stopped it.
    pub fn unscripted_side_outcome(answer: String, stopped: bool) -> (r: SideQuestionOutcome)
        ensures
            r@ == Self::echo_outcome(answer@, stopped),
    {
        if stopped {
            SideQuestionOutcome::Aborted { answer }
        } else {
            SideQuestionOutcome::Complete { answer }
        }
    }

    /// Whether a result is the scripted one of an attempt at a side question.
    pub open spec fn is_side_attempt(
        script: ScriptView,
        result: Result<SideTurnPlan, String>,
        index: usize,
    ) -> bool {
        match result {
            Ok(plan) => index < script.side_responses.len() && is_side_plan(
                plan,
                script.side_responses[index as int],
            ),
            Err(error) => index >= script.side_responses.len() && error@
                == "No more scripted side-question responses"@,
        }
    }

    /// The scripted result of one attempt at a side question.
    pub fn side_attempt(&self, index: usize) -> (r: Result<SideTurnPlan, String>)
        ensures
            Self::is_side_attempt(self@, r, index),
    {
        proof {
            lemma_items_view(self.side_question.responses@);
        }
        if index < self.side_question.responses.len() {
            Ok(scripted_side_question_turn(&self.side_question.responses[index]))
        } else {
            Err("No more scripted side-question responses".to_owned())
        }
    }

    /// Whether a plan is the one that the next compaction begins with.
    pub open spec fn is_compaction_begun(
        before: ScriptView,
        after: ScriptView,
        plan: CompactionPlan,
    ) -> bool {
        &&& after == (ScriptView {
            next_compaction: next_index(
                before.next_compaction,
                before.compactions.len(),
            ),
            ..before
        })
        &&& if before.next_compaction < before.compactions.len() {
            is_compaction_plan(
                plan,
                before.compactions[before.next_compaction as int],
            )
        } else {
            plan matches CompactionPlan::Settled(outcome) && outcome@ == default_compaction()
        }
    }

    /// Begin a compaction: the next scripted result, behind the last one the
    /// first again, or the default where none is scripted.
    pub fn run_compaction(&mut self) -> (r: CompactionPlan)
        ensures
            Self::is_compaction_begun(old(self)@, final(self)@, r),
    {
        proof {
            lemma_items_view(self.compaction.responses@);
        }
        let index = self.compaction.next;
        let len = self.compaction.responses.len();
        self.compaction.next = if index >= len || index + 1 >= len {
            0
        } else {
            index + 1
        };
        if index < len {
            scripted_compaction(&self.compaction.responses[index])
        } else {
            CompactionPlan::Settled(
                CompactionOutcome::Compacted {
                    run: CompactionRun {
                        result: Json::object().field(
                            "summary",
                            Json::string("scripted compaction summary"),
                        ).field("firstKeptEntryId", Json::string("")).field(
                            "tokensBefore",
                            Json::uint(0),
                        ).field("details", no_details_value()),
                        usage: None,
                    },
                },
            )
        }
    }
}

/// Whether a plan is that of a scripted side-question result: a failure with
/// its classification, or its text to stream and its pause.
pub open spec fn is_side_plan(plan: SideTurnPlan, entry: JsonView) -> bool {
    match entry.get_str("error"@) {
        Some(error) => plan matches SideTurnPlan::Fail { error: got, details } && got@ == error
            && details@ == failure_details(entry),
        None => plan matches SideTurnPlan::Stream { text, delay_ms } && text@ == text_in(entry)
            && delay_ms == delay_in(entry),
    }
}

/// The classification of a scripted failure.
pub open spec fn failure_details(entry: JsonView) -> JsonView {
    JsonView::object().field(
        "kind"@,
        crate::json::or_null(crate::protocol::opt_string(entry.get_str("kind"@))),
    ).field("status"@, number_or_null(entry.get_u64("status"@))).field(
        "retryAfterMs"@,
        number_or_null(entry.get_u64("retryAfterMs"@)),
    )
}

/// A number, or null where there is none.
pub open spec fn number_or_null(n: Option<u64>) -> JsonView {
    match n {
        Some(n) => JsonView::uint(n),
        None => JsonView::Null,
    }
}

fn number_value(n: Option<u64>) -> (r: Json)
    ensures
        r@ == number_or_null(n),
{
    match n {
        Some(n) => Json::uint(n),
        None => Json::Null,
    }
}

/// What one attempt at a scripted side question does.
pub fn scripted_side_question_turn(entry: &Json) -> (r: SideTurnPlan)
    ensures
        is_side_plan(r, entry@),
{
    match entry.get_str("error") {
        Some(error) => {
            let kind = match entry.get_str("kind") {
                Some(kind) => Json::string(kind),
                None => Json::Null,
            };
            SideTurnPlan::Fail {
                error: error.to_owned(),
                details: Json::object().field("kind", kind).field(
                    "status",
                    number_value(entry.get_u64("status")),
                ).field("retryAfterMs", number_value(entry.get_u64("retryAfterMs"))),
            }
        },
        None => SideTurnPlan::Stream {
            text: ScriptedEngine::response_text(entry),
            delay_ms: ScriptedEngine::response_delay_ms(entry),
        },
    }
}

/// Whether a message is that of an attempt at a side question.
pub open spec fn is_side_message(message: SideMessage, plan: SideTurnPlan, stopped: bool) -> bool {
    match plan {
        SideTurnPlan::Fail { error, .. } => message matches SideMessage::Failed {
            text,
            error: got,
        } && text@.len() == 0 && opt_text(got) == Some(error@),
        SideTurnPlan::Stream { text, .. } => if stopped {
            message matches SideMessage::Aborted { text: got } && got@ == text@
        } else {
            message matches SideMessage::Answered { text: got } && got@ == text@
        },
    }
}

/// The message of an attempt: a failure as it is scripted, and a streamed
/// answer as aborted where it was stopped before, during or behind its pause.
pub fn settle_side_turn(plan: SideTurnPlan, stopped: bool) -> (r: SideMessage)
    ensures
        is_side_message(r, plan, stopped),
{
    match plan {
        SideTurnPlan::Fail { error, .. } => SideMessage::Failed {
            text: String::new(),
            error: Some(error),
        },
        SideTurnPlan::Stream { text, .. } => if stopped {
            SideMessage::Aborted { text }
        } else {
            SideMessage::Answered { text }
        },
    }
}

/// The outcome of a side question's last message, or of the failure to get one.
pub open spec fn side_outcome(result: Result<SideMessage, String>) -> SideOutcomeView {
    match result {
        Ok(SideMessage::Answered { text }) => SideOutcomeView::Complete { answer: text@ },
        Ok(SideMessage::Aborted { text }) => SideOutcomeView::Aborted { answer: text@ },
        Ok(SideMessage::Failed { text, error }) => SideOutcomeView::Failed {
            answer: text@,
            error: match error {
                Some(error) => error@,
                None => "Side question failed"@,
            },
        },
        Err(error) => SideOutcomeView::Failed { answer: Seq::empty(), error: error@ },
    }
}

/// The outcome of a side question's last message, or of the failure to get one.
pub fn run_side_question(result: Result<SideMessage, String>) -> (r: SideQuestionOutcome)
    ensures
        r@ == side_outcome(result),
{
    match result {
        Ok(SideMessage::Answered { text }) => SideQuestionOutcome::Complete { answer: text },
        Ok(SideMessage::Aborted { text }) => SideQuestionOutcome::Aborted { answer: text },
        Ok(SideMessage::Failed { text, error }) => SideQuestionOutcome::Failed {
            answer: text,
            error: match error {
                Some(error) => error,
                None => "Side question failed".to_owned(),
            },
        },
        Err(error) => {
            let answer = String::new();
            SideQuestionOutcome::Failed { answer, error }
        },
    }
}

/// Whether a plan is that of a scripted compaction: errors and skips settle at
/// once, anything else after its pause.
pub open spec fn is_compaction_plan(plan: CompactionPlan, entry: JsonView) -> bool {
    if entry.get_str("error"@) is Some {
        plan matches CompactionPlan::Settled(outcome) && outcome@ == scripted_outcome(entry)
    } else {
        plan matches CompactionPlan::Run { delay_ms, outcome } && delay_ms == delay_in(entry)
            && outcome@ == scripted_outcome(entry)
    }
}

/// How a scripted compaction goes.
pub fn scripted_compaction(entry: &Json) -> (r: CompactionPlan)
    ensures
        is_compaction_plan(r, entry@),
{
    match entry.get_str("error") {
        Some(error) => {
            let skipped = entry.get_bool("skipped") == Some(true);
            if skipped {
                CompactionPlan::Settled(CompactionOutcome::Skipped { message: error.to_owned() })
            } else {
                CompactionPlan::Settled(CompactionOutcome::Failed { error: error.to_owned() })
            }
        },
        None => {
            let details = match entry.get("details") {
                Some(details) => details.duplicate(),
                None => no_details_value(),
            };
            let usage = match entry.get("usage") {
                None | Some(Json::Null) => None,
                Some(usage) => Some(usage.duplicate()),
            };
            let result = Json::object().field(
                "summary",
                Json::string(entry.get_string_or_empty("summary").as_str()),
            ).field(
                "firstKeptEntryId",
                Json::string(entry.get_string_or_empty("firstKeptEntryId").as_str()),
            ).field("tokensBefore", Json::uint(script_count(entry, "tokensBefore"))).field(
                "details",
                details,
            );
            CompactionPlan::Run {
                delay_ms: ScriptedEngine::response_delay_ms(entry),
                outcome: CompactionOutcome::Compacted { run: CompactionRun { result, usage } },
            }
        },
    }
}

/// The outcome of a compaction that was let run.
pub open spec fn settled_compaction(plan: CompactionPlan, aborted: bool) -> OutcomeView {
    match plan {
        CompactionPlan::Settled(outcome) => outcome@,
        CompactionPlan::Run { outcome, .. } => if aborted {
            OutcomeView::Aborted
        } else {
            outcome@
        },
    }
}

/// The outcome of a compaction that was let run, given whether it was aborted
/// before its pause was over.
pub fn settle_compaction(plan: CompactionPlan, aborted: bool) -> (r: CompactionOutcome)
    ensures
        r@ == settled_compaction(plan, aborted),
{
    match plan {
        CompactionPlan::Settled(outcome) => outcome,
        CompactionPlan::Run { outcome, .. } => if aborted {
            CompactionOutcome::Aborted
        } else {
            outcome
        },
    }
}

/// The compaction that run number `n` uses.
pub open spec fn compaction_at(n: nat, len: nat) -> usize
    decreases n,
{
    if n == 0 {
        0
    } else {
        next_index(compaction_at((n - 1) as nat, len), len)
    }
}

/// Scripted compactions are replayed from the top: run number `n` uses result
/// number `n` modulo their count.
pub proof fn law_compactions_replay(n: nat, len: nat)
    requires
        0 < len <= usize::MAX,
    ensures
        compaction_at(n, len) == n % len,
    decreases n,
{
    if n > 0 {
        law_compactions_replay((n - 1) as nat, len);
        let before = (n - 1) as nat;
        vstd::arithmetic::div_mod::lemma_fundamental_div_mod(before as int, len as int);
        let q = before / len;
        let m = before % len;
        assert(before == len * q + m);
        assert(0 <= m < len) by {
            vstd::arithmetic::div_mod::lemma_mod_pos_bound(before as int, len as int);
        }
        if m + 1 == len {
            assert(n == (q + 1) * len + 0) by (nonlinear_arith)
                requires
                    n == before + 1,
                    before == len * q + m,
                    m + 1 == len,
            ;
            vstd::arithmetic::div_mod::lemma_fundamental_div_mod_converse(
                n as int,
                len as int,
                (q + 1) as int,
                0,
            );
        } else {
            assert(n == q * len + (m + 1)) by (nonlinear_arith)
                requires
                    n == before + 1,
                    before == len * q + m,
            ;
            vstd::arithmetic::div_mod::lemma_fundamental_div_mod_converse(
                n as int,
                len as int,
                q as int,
                (m + 1) as int,
            );
        }
    } else {
        vstd::arithmetic::div_mod::lemma_small_mod(0, len);
    }
}

/// How long one slice of an abortable pause is.
pub const SLEEP_SLICE_MS: u64 = 25;

/// What an abortable pause does next.
#[derive(Debug, Clone, Copy, PartialEq, Eq, Structural)]
pub enum SleepStep {
    /// Sleep for a slice, then look again with what remains.
    Slice { ms: u64, remaining_ms: u64 },
    /// The pause is over, and was aborted or not.
    Over { completed: bool },
}

/// Whether a step is one of an abortable pause.
pub open spec fn is_sleep_step(step: SleepStep, remaining_ms: u64, aborted: bool) -> bool {
    &&& aborted || remaining_ms == 0 ==> step == (SleepStep::Over { completed: !aborted })
    &&& !aborted && 0 < remaining_ms <= SLEEP_SLICE_MS ==> step == (SleepStep::Slice {
        ms: remaining_ms,
        remaining_ms: 0,
    })
    &&& !aborted && remaining_ms > SLEEP_SLICE_MS ==> step == (SleepStep::Slice {
        ms: SLEEP_SLICE_MS,
        remaining_ms: (remaining_ms - SLEEP_SLICE_MS) as u64,
    })
}

/// One step of an abortable pause: it is over when it was aborted or nothing
/// remains.
pub fn abortable_sleep(remaining_ms: u64, aborted: bool) -> (r: SleepStep)
    ensures
        is_sleep_step(r, remaining_ms, aborted),
{
    if aborted || remaining_ms == 0 {
        return SleepStep::Over { completed: !aborted };
    }
    if remaining_ms <= SLEEP_SLICE_MS {
        SleepStep::Slice { ms: remaining_ms, remaining_ms: 0 }
    } else {
        SleepStep::Slice { ms: SLEEP_SLICE_MS, remaining_ms: remaining_ms - SLEEP_SLICE_MS }
    }
}

} // verus!
