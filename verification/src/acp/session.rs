//! One hosted session: what its client is told of the loop's events, and
//! whether a turn of it failed.
use vstd::prelude::*;

use crate::acp::{error_frame, error_json, PrimeAgentOutcome, TurnUpdate, INVALID_PARAMS};
use crate::agent_engine::{ImageContent, StopReason, StreamEvent};
use crate::json::{Json, JsonView};
use crate::text::{copy_opt, is_empty_text, opt_text, same_opt};

verus! {

/// One hosted session: its id, and whether it was cancelled.
#[derive(Debug, PartialEq, Eq)]
pub struct AcpSession {
    pub id: String,
    pub cancelled: bool,
}

impl AcpSession {
    /// A session under an id, not cancelled.
    pub fn new(id: String) -> (r: AcpSession)
        ensures
            r == (AcpSession { id, cancelled: false }),
    {
        AcpSession { id, cancelled: false }
    }

    /// Whether the session was cancelled.
    pub fn cancel_requested(&self) -> (r: bool)
        ensures
            r == self.cancelled,
    {
        self.cancelled
    }

    /// Cancel the session; it stays so.
    pub fn request_cancel(&mut self)
        ensures
            *final(self) == (AcpSession { cancelled: true, ..*old(self) }),
    {
        self.cancelled = true;
    }
}

/// The prompt that a turn takes: its text and its images.
#[derive(Debug, PartialEq, Eq)]
pub struct AdmittedPrompt {
    pub text: String,
    pub images: Vec<ImageContent>,
}

impl AdmittedPrompt {
    /// Whether a prompt, or its refusal, is that of the blocks that a client sent.
    pub open spec fn is_parsed(
        result: Result<AdmittedPrompt, Json>,
        id: JsonView,
        blocks: Result<(String, Vec<ImageContent>), String>,
    ) -> bool {
        match blocks {
            Ok((text, images)) => result == Ok::<AdmittedPrompt, Json>(
                AdmittedPrompt { text, images },
            ),
            Err(reason) => result is Err && result->Err_0@ == block_error(id, reason@),
        }
    }

    /// The prompt of the blocks that a client sent, as they were read; blocks
    /// that could not be read are refused with the request's error.
    pub fn parse(id: &Json, blocks: Result<(String, Vec<ImageContent>), String>) -> (r: Result<
        AdmittedPrompt,
        Json,
    >)
        ensures
            Self::is_parsed(r, id@, blocks),
    {
        match blocks {
            Ok((text, images)) => Ok(AdmittedPrompt { text, images }),
            Err(reason) => Err(prompt_block_error(id, reason.as_str())),
        }
    }
}

/// An event of the loop, as far as a client can be told of it.
#[derive(Debug, PartialEq, Eq)]
pub enum LoopSignal {
    MessageStart { role: String },
    MessageUpdate { stream: StreamEvent },
    MessageEnd { role: String },
    ToolExecutionStart { tool_call_id: String, tool_name: String, args: Json },
    ToolExecutionEnd { tool_call_id: String, tool_name: String, result: Json, is_error: bool },
    Other,
}

/// What a client is told of the loop.
#[derive(Debug, PartialEq, Eq)]
pub enum AcpEngineEvent {
    MessageStart { role: String },
    AssistantDelta { thinking: bool, delta: String },
    MessageEnd { role: String },
    ToolExecutionStart { tool_call_id: String, tool_name: String, args: Json },
    ToolExecutionEnd { tool_call_id: String, tool_name: String, result: Json, is_error: bool },
}

/// The mathematical event behind an [`AcpEngineEvent`].
#[verifier::ext_equal]
pub enum AcpEventView {
    MessageStart { role: Seq<char> },
    AssistantDelta { thinking: bool, delta: Seq<char> },
    MessageEnd { role: Seq<char> },
    ToolExecutionStart { tool_call_id: Seq<char>, tool_name: Seq<char>, args: JsonView },
    ToolExecutionEnd {
        tool_call_id: Seq<char>,
        tool_name: Seq<char>,
        result: JsonView,
        is_error: bool,
    },
}

impl View for AcpEngineEvent {
    type V = AcpEventView;

    open spec fn view(&self) -> AcpEventView {
        match self {
            AcpEngineEvent::MessageStart { role } => AcpEventView::MessageStart { role: role@ },
            AcpEngineEvent::AssistantDelta { thinking, delta } => AcpEventView::AssistantDelta {
                thinking: *thinking,
                delta: delta@,
            },
            AcpEngineEvent::MessageEnd { role } => AcpEventView::MessageEnd { role: role@ },
            AcpEngineEvent::ToolExecutionStart { tool_call_id, tool_name, args } => AcpEventView::ToolExecutionStart {
                tool_call_id: tool_call_id@,
                tool_name: tool_name@,
                args: args@,
            },
            AcpEngineEvent::ToolExecutionEnd { tool_call_id, tool_name, result, is_error } => AcpEventView::ToolExecutionEnd {
                tool_call_id: tool_call_id@,
                tool_name: tool_name@,
                result: result@,
                is_error: *is_error,
            },
        }
    }
}

/// What a client is told of an event of the loop: of a stream, the text and the
/// thinking that was added, where something was.
pub open spec fn projected(signal: LoopSignal) -> Option<AcpEventView> {
    match signal {
        LoopSignal::MessageStart { role } => Some(AcpEventView::MessageStart { role: role@ }),
        LoopSignal::MessageUpdate { stream } => match stream {
            StreamEvent::TextDelta(delta) if delta@.len() > 0 => Some(
                AcpEventView::AssistantDelta { thinking: false, delta: delta@ },
            ),
            StreamEvent::ThinkingDelta(delta) if delta@.len() > 0 => Some(
                AcpEventView::AssistantDelta { thinking: true, delta: delta@ },
            ),
            _ => None,
        },
        LoopSignal::MessageEnd { role } => Some(AcpEventView::MessageEnd { role: role@ }),
        LoopSignal::ToolExecutionStart { tool_call_id, tool_name, args } => Some(
            AcpEventView::ToolExecutionStart {
                tool_call_id: tool_call_id@,
                tool_name: tool_name@,
                args: args@,
            },
        ),
        LoopSignal::ToolExecutionEnd { tool_call_id, tool_name, result, is_error } => Some(
            AcpEventView::ToolExecutionEnd {
                tool_call_id: tool_call_id@,
                tool_name: tool_name@,
                result: result@,
                is_error,
            },
        ),
        LoopSignal::Other => None,
    }
}

/// What a client is told of an event of the loop.
pub fn project_event(signal: LoopSignal) -> (r: Option<AcpEngineEvent>)
    ensures
        (match r {
            Some(event) => Some(event@),
            None => None,
        }) == projected(signal),
{
    match signal {
        LoopSignal::MessageStart { role } => Some(AcpEngineEvent::MessageStart { role }),
        LoopSignal::MessageUpdate { stream } => match stream {
            StreamEvent::TextDelta(delta) => if is_empty_text(delta.as_str()) {
                None
            } else {
                Some(AcpEngineEvent::AssistantDelta { thinking: false, delta })
            },
            StreamEvent::ThinkingDelta(delta) => if is_empty_text(delta.as_str()) {
                None
            } else {
                Some(AcpEngineEvent::AssistantDelta { thinking: true, delta })
            },
            _ => None,
        },
        LoopSignal::MessageEnd { role } => Some(AcpEngineEvent::MessageEnd { role }),
        LoopSignal::ToolExecutionStart { tool_call_id, tool_name, args } => Some(
            AcpEngineEvent::ToolExecutionStart { tool_call_id, tool_name, args },
        ),
        LoopSignal::ToolExecutionEnd { tool_call_id, tool_name, result, is_error } => Some(
            AcpEngineEvent::ToolExecutionEnd { tool_call_id, tool_name, result, is_error },
        ),
        LoopSignal::Other => None,
    }
}

/// What tells an assistant message from every other: a compaction drops
/// messages and rewrites none, so that a kept message keeps its key.
#[derive(Debug, PartialEq, Eq)]
pub struct MessageKey {
    pub timestamp: u64,
    pub stop_reason: StopReason,
    pub error_message: Option<String>,
}

/// The mathematical key behind a [`MessageKey`].
#[verifier::ext_equal]
pub struct KeyView {
    pub timestamp: u64,
    pub stop_reason: StopReason,
    pub error_message: Option<Seq<char>>,
}

impl View for MessageKey {
    type V = KeyView;

    open spec fn view(&self) -> KeyView {
        KeyView {
            timestamp: self.timestamp,
            stop_reason: self.stop_reason,
            error_message: opt_text(self.error_message),
        }
    }
}

impl MessageKey {
    fn copy(&self) -> (r: MessageKey)
        ensures
            r@ == self@,
    {
        MessageKey {
            timestamp: self.timestamp,
            stop_reason: self.stop_reason,
            error_message: copy_opt(&self.error_message),
        }
    }

    fn same(&self, other: &MessageKey) -> (r: bool)
        ensures
            r == (self@ == other@),
    {
        self.timestamp == other.timestamp && self.stop_reason == other.stop_reason && same_opt(
            &self.error_message,
            &other.error_message,
        )
    }
}

/// A message of a transcript, by its key where it is an assistant's.
pub type TranscriptMessage = Option<MessageKey>;

/// The keys of a transcript's assistant messages, in order.
pub open spec fn keys_of(messages: Seq<TranscriptMessage>) -> Seq<KeyView>
    decreases messages.len(),
{
    if messages.len() == 0 {
        Seq::empty()
    } else {
        match messages.last() {
            Some(key) => keys_of(messages.drop_last()).push(key@),
            None => keys_of(messages.drop_last()),
        }
    }
}

/// The transcript as it stood before a turn.
#[derive(Debug, PartialEq, Eq)]
pub struct TurnBoundary {
    pub keys: Vec<MessageKey>,
}

/// Keys, by value.
pub open spec fn keys_view(keys: Seq<MessageKey>) -> Seq<KeyView> {
    Seq::new(keys.len(), |i: int| keys[i]@)
}

impl View for TurnBoundary {
    type V = Seq<KeyView>;

    open spec fn view(&self) -> Seq<KeyView> {
        keys_view(self.keys@)
    }
}

impl TurnBoundary {
    /// Record a transcript.
    pub fn capture(messages: &Vec<TranscriptMessage>) -> (r: TurnBoundary)
        ensures
            r@ == keys_of(messages@),
    {
        let mut keys: Vec<MessageKey> = Vec::new();
        let mut i: usize = 0;
        assert(keys_view(keys@) =~= keys_of(messages@.take(0)));
        while i < messages.len()
            invariant
                i <= messages@.len(),
                keys_view(keys@) == keys_of(messages@.take(i as int)),
            decreases messages@.len() - i,
        {
            assert(messages@.take(i + 1).drop_last() =~= messages@.take(i as int));
            match &messages[i] {
                Some(key) => {
                    let ghost before = keys_view(keys@);
                    keys.push(key.copy());
                    assert(keys_view(keys@) =~= before.push(key@));
                },
                None => {},
            }
            i = i + 1;
        }
        assert(messages@.take(i as int) =~= messages@);
        TurnBoundary { keys }
    }

    /// Whether a message stood there before the turn.
    pub fn contains(&self, message: &MessageKey) -> (r: bool)
        ensures
            r == self@.contains(message@),
    {
        let mut i: usize = 0;
        while i < self.keys.len()
            invariant
                i <= self.keys@.len(),
                forall|j: int| 0 <= j < i ==> #[trigger] self@[j] != message@,
            decreases self.keys@.len() - i,
        {
            if self.keys[i].same(message) {
                assert(self@[i as int] == message@);
                return true;
            }
            i = i + 1;
        }
        assert(!self@.contains(message@));
        false
    }
}

/// The newest assistant message of a transcript, where there is one.
pub open spec fn newest_key(messages: Seq<TranscriptMessage>) -> Option<KeyView>
    decreases messages.len(),
{
    if messages.len() == 0 {
        None
    } else {
        match messages.last() {
            Some(key) => Some(key@),
            None => newest_key(messages.drop_last()),
        }
    }
}

/// Why a turn failed, where it did: its newest assistant message is the turn's
/// own and ended in an error.
pub open spec fn failure_of(
    messages: Seq<TranscriptMessage>,
    boundary: Seq<KeyView>,
) -> Option<Seq<char>> {
    match newest_key(messages) {
        Some(key) if !boundary.contains(key) && key.stop_reason == StopReason::Error => Some(
            match key.error_message {
                Some(error) => error,
                None => "the model request failed"@,
            },
        ),
        _ => None,
    }
}

/// Why a turn failed, where it did.
pub fn turn_failure(messages: &Vec<TranscriptMessage>, boundary: &TurnBoundary) -> (r: Option<
    String,
>)
    ensures
        opt_text(r) == failure_of(messages@, boundary@),
{
    let mut n: usize = messages.len();
    assert(messages@.take(n as int) =~= messages@);
    while n > 0
        invariant
            n <= messages@.len(),
            newest_key(messages@) == newest_key(messages@.take(n as int)),
        decreases n,
    {
        assert(messages@.take(n as int).last() == messages@[n - 1]);
        assert(messages@.take(n as int).drop_last() =~= messages@.take(n - 1));
        match &messages[n - 1] {
            Some(key) => {
                if boundary.contains(key) {
                    return None;
                }
                if key.stop_reason != StopReason::Error {
                    return None;
                }
                return Some(
                    match &key.error_message {
                        Some(error) => error.clone(),
                        None => "the model request failed".to_owned(),
                    },
                );
            },
            None => {},
        }
        n = n - 1;
    }
    None
}

proof fn lemma_newest_is_a_key(messages: Seq<TranscriptMessage>)
    ensures
        newest_key(messages) matches Some(key) ==> keys_of(messages).contains(key),
    decreases messages.len(),
{
    if messages.len() > 0 {
        lemma_newest_is_a_key(messages.drop_last());
        match messages.last() {
            Some(key) => {
                let keys = keys_of(messages);
                assert(keys[keys.len() - 1] == key@);
            },
            None => {},
        }
    }
}

/// A turn that appended no answer reports no failure: where every assistant
/// message of the transcript was there when the boundary was captured, whatever
/// was dropped since, an earlier failure is not reported again.
pub proof fn law_old_failures_are_not_reported(
    before: Seq<TranscriptMessage>,
    after: Seq<TranscriptMessage>,
)
    requires
        forall|key: KeyView| #[trigger]
            keys_of(after).contains(key) ==> keys_of(before).contains(key),
    ensures
        failure_of(after, keys_of(before)) is None,
{
    lemma_newest_is_a_key(after);
}

/// The error of a prompt that could not be read.
pub open spec fn block_error(id: JsonView, reason: Seq<char>) -> JsonView {
    error_json(
        id,
        INVALID_PARAMS,
        "Invalid params"@,
        JsonView::object().field("reason"@, JsonView::Str(reason)),
    )
}

/// The error of a prompt that could not be read.
pub fn prompt_block_error(id: &Json, reason: &str) -> (r: Json)
    ensures
        r@ == block_error(id@, reason@),
{
    error_frame(
        id,
        INVALID_PARAMS,
        "Invalid params",
        Json::object().field("reason", Json::string(reason)),
    )
}

/// What a session update is for.
#[derive(Debug, Clone, Copy, PartialEq, Eq, Structural)]
pub enum PrimeAgentEventPhase {
    Event,
    ResponseBoundary,
    TerminalQuiescence,
}

/// What is outstanding of a turn.
#[derive(Debug, Clone, Copy, PartialEq, Eq, Structural)]
pub struct PrimeAgentQuiescenceMeta {
    pub outstanding_subagents: u64,
    pub remaining_autonomous_continuations: u64,
}

/// A session update around the end of a turn: its phase, how the turn came out
/// where that is said, whether a terminal update follows, and what is
/// outstanding.
#[derive(Debug, Clone, Copy, PartialEq, Eq, Structural)]
pub struct SessionInfoUpdate {
    pub phase: PrimeAgentEventPhase,
    pub outcome: Option<PrimeAgentOutcome>,
    pub terminal_quiescence_expected: Option<bool>,
    pub quiescence: Option<PrimeAgentQuiescenceMeta>,
}

/// Nothing outstanding: a hosted session has no subagents and no continuations
/// of its own.
pub open spec fn quiet() -> PrimeAgentQuiescenceMeta {
    PrimeAgentQuiescenceMeta { outstanding_subagents: 0, remaining_autonomous_continuations: 0 }
}

/// The update before a prompt's response.
pub open spec fn boundary_update(expected: bool, outcome: PrimeAgentOutcome) -> SessionInfoUpdate {
    SessionInfoUpdate {
        phase: PrimeAgentEventPhase::ResponseBoundary,
        outcome: Some(outcome),
        terminal_quiescence_expected: Some(expected),
        quiescence: None,
    }
}

/// The update of a complete turn.
pub open spec fn completion_update() -> SessionInfoUpdate {
    SessionInfoUpdate {
        phase: PrimeAgentEventPhase::Event,
        outcome: None,
        terminal_quiescence_expected: None,
        quiescence: Some(quiet()),
    }
}

/// The update that nothing follows.
pub open spec fn terminal_update(outcome: PrimeAgentOutcome) -> SessionInfoUpdate {
    SessionInfoUpdate {
        phase: PrimeAgentEventPhase::TerminalQuiescence,
        outcome: Some(outcome),
        terminal_quiescence_expected: None,
        quiescence: Some(quiet()),
    }
}

/// The update before a prompt's response: it says whether a terminal update
/// follows.
pub fn publish_response_boundary(expected: bool, outcome: PrimeAgentOutcome) -> (r:
    SessionInfoUpdate)
    ensures
        r == boundary_update(expected, outcome),
{
    SessionInfoUpdate {
        phase: PrimeAgentEventPhase::ResponseBoundary,
        outcome: Some(outcome),
        terminal_quiescence_expected: Some(expected),
        quiescence: None,
    }
}

/// The two updates that follow a settled turn's boundary: its completion, and
/// the terminal one with its outcome.
pub fn publish_completion_envelope(outcome: PrimeAgentOutcome) -> (r: (
    SessionInfoUpdate,
    SessionInfoUpdate,
))
    ensures
        r == (completion_update(), terminal_update(outcome)),
{
    let quiescence = PrimeAgentQuiescenceMeta {
        outstanding_subagents: 0,
        remaining_autonomous_continuations: 0,
    };
    (
        SessionInfoUpdate {
            phase: PrimeAgentEventPhase::Event,
            outcome: None,
            terminal_quiescence_expected: None,
            quiescence: Some(quiescence),
        },
        SessionInfoUpdate {
            phase: PrimeAgentEventPhase::TerminalQuiescence,
            outcome: Some(outcome),
            terminal_quiescence_expected: None,
            quiescence: Some(quiescence),
        },
    )
}

/// The session update that a turn's update is sent as.
pub open spec fn update_of(update: TurnUpdate) -> SessionInfoUpdate {
    match update {
        TurnUpdate::ResponseBoundary { terminal_expected, outcome } => boundary_update(
            terminal_expected,
            outcome,
        ),
        TurnUpdate::Completion => completion_update(),
        TurnUpdate::TerminalQuiescence { outcome } => terminal_update(outcome),
    }
}

/// The session update that a turn's update is sent as.
pub fn session_info(update: TurnUpdate) -> (r: SessionInfoUpdate)
    ensures
        r == update_of(update),
{
    match update {
        TurnUpdate::ResponseBoundary { terminal_expected, outcome } => publish_response_boundary(
            terminal_expected,
            outcome,
        ),
        TurnUpdate::Completion => publish_completion_envelope(PrimeAgentOutcome::Result).0,
        TurnUpdate::TerminalQuiescence { outcome } => publish_completion_envelope(outcome).1,
    }
}

} // verus!
