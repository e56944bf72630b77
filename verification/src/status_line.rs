//! The status line of a session: one recap and, for an idle session, one
//! verdict, asked of a small model and cleaned of its habits.
use vstd::prelude::*;

use crate::json::{items_view, lemma_array_view, lemma_items_view, Json, JsonView};
use crate::text::{
    chars_of, concat3, concat5, contains_text, find_at, find_from, has_text, is_empty_text,
    is_text, join, join_texts, lower, lower_text, lowercase, lowercase_of, opt_text, same_text,
    split_words, text_of, texts, trim, trim_end, trim_end_of, trim_start, trim_start_of, trim_text,
    words,
};

verus! {

/// How long a session must be quiet before its turn counts as settled.
pub const SETTLE_DEBOUNCE_MS: u64 = 2_000;

/// How often a working session is refreshed.
pub const SWEEP_INTERVAL_MS: u64 = 25_000;

/// How many trailing messages the model is shown.
pub const SUMMARY_CONTEXT_MESSAGES: usize = 8;

/// How many characters of each message the model is shown.
pub const SUMMARY_MAX_CHARS_PER_MESSAGE: usize = 600;

/// The model's token budget.
pub const SUMMARY_MAX_TOKENS: u64 = 400;

/// The longest recap, in words.
pub const MAX_RECAP_WORDS: usize = 16;

pub const SUMMARY_MODEL_PROVIDER: &'static str = "prime-inference";

pub const SUMMARY_MODEL_ID: &'static str = "qwen/qwen3-30b-a3b-instruct-2507";

/// The instructions of the model.
pub const AGENT_STATUS_SYSTEM_PROMPT: &'static str = "You generate a status line for an AI coding agent dashboard. You are given the recent conversation between a user and the agent, plus whether the agent is currently working or idle.\n\nOutput ONLY these two tags, nothing before, between, or after. Do not think out loud, explain, or count words.\n<recap>a present-tense clause, at most 12 words, saying what the agent is doing or just did, no trailing period</recap>\n<status>one of NEEDS_INPUT, COMPLETED</status>\n\nSTATUS meaning:\n- COMPLETED: the agent finished its turn AND the user's request is fully done with nothing left.\n- NEEDS_INPUT: the agent finished its turn but the task is not fully done \u{2014} it asked a question, hit a blocker, or needs more prompting.\nWhen you are unsure between COMPLETED and NEEDS_INPUT, choose NEEDS_INPUT.\n\nExample:\n<recap>Refactoring the auth middleware and updating its tests</recap>\n<status>NEEDS_INPUT</status>";

/// The pattern of a word count that the model appends to its recap.
pub const REASONING_TRAILER: &'static str = "(?i)\\s*(?:[\"\u{201d}]\\s*)?(?:\\bthat['\u{2019}]?s\\s+\\d+\\s+words?\\b|\\bcount\\s*:|\\(\\d+\\)|=\\s*\\d+\\s+words?\\b).*";

/// The pattern of a word count inside a recap.
pub const COUNTING_ARTIFACT: &'static str = "(?i)\\(\\d+\\)|=\\s*\\d+\\s+words?\\b";

/// Whether an idle session is done or waits for its user.
#[derive(Debug, Clone, Copy, PartialEq, Eq, Structural)]
pub enum AgentTaskState {
    NeedsInput,
    Completed,
}

impl AgentTaskState {
    /// The verdict's name on the wire.
    pub fn as_str(&self) -> (r: &'static str)
        ensures
            r@ == match *self {
                AgentTaskState::NeedsInput => "needs_input"@,
                AgentTaskState::Completed => "completed"@,
            },
    {
        match self {
            AgentTaskState::NeedsInput => "needs_input",
            AgentTaskState::Completed => "completed",
        }
    }
}

/// A recap and, for an idle session, a verdict.
#[derive(Debug, PartialEq, Eq)]
pub struct GeneratedStatus {
    pub summary: String,
    pub task_state: Option<AgentTaskState>,
}

/// The mathematical status behind a [`GeneratedStatus`].
#[verifier::ext_equal]
pub struct GeneratedView {
    pub summary: Seq<char>,
    pub task_state: Option<AgentTaskState>,
}

impl View for GeneratedStatus {
    type V = GeneratedView;

    open spec fn view(&self) -> GeneratedView {
        GeneratedView { summary: self.summary@, task_state: self.task_state }
    }
}

/// An optional status.
pub open spec fn opt_generated(status: Option<GeneratedStatus>) -> Option<GeneratedView> {
    match status {
        Some(status) => Some(status@),
        None => None,
    }
}

// ---------------------------------------------------------------------------
// When a session is summarized
// ---------------------------------------------------------------------------

/// The status kept of a session.
#[derive(Debug, PartialEq, Eq)]
pub struct StatusState {
    pub summary: String,
    pub task_state: Option<AgentTaskState>,
    pub based_on_message_count: usize,
}

/// The mathematical status behind a [`StatusState`].
#[verifier::ext_equal]
pub struct StatusView {
    pub summary: Seq<char>,
    pub task_state: Option<AgentTaskState>,
    pub based_on_message_count: usize,
}

impl View for StatusState {
    type V = StatusView;

    open spec fn view(&self) -> StatusView {
        StatusView {
            summary: self.summary@,
            task_state: self.task_state,
            based_on_message_count: self.based_on_message_count,
        }
    }
}

/// An optional kept status.
pub open spec fn opt_status(status: Option<StatusState>) -> Option<StatusView> {
    match status {
        Some(status) => Some(status@),
        None => None,
    }
}

/// What woke the summarizer.
#[derive(Debug, Clone, Copy, PartialEq, Eq, Structural)]
pub enum NotifySource {
    TurnSettled,
    Sweep,
}

/// Whether an idle session still lacks a verdict or a recap.
pub open spec fn owes_status(is_working: bool, previous: Option<StatusView>) -> bool {
    !is_working && match previous {
        None => true,
        Some(state) => state.task_state is None || state.summary.len() == 0,
    }
}

/// Whether the model is asked: never about an empty session, by the sweep only
/// about a working one, and about an idle one only where its messages changed
/// or something is still owed.
pub open spec fn asks_model(
    source: NotifySource,
    message_count: usize,
    is_working: bool,
    previous: Option<StatusView>,
) -> bool {
    &&& message_count > 0
    &&& source == NotifySource::Sweep ==> is_working
    &&& is_working || owes_status(is_working, previous) || previous is None
        || previous->0.based_on_message_count != message_count
}

fn owes(is_working: bool, previous: &Option<StatusState>) -> (r: bool)
    ensures
        r == owes_status(is_working, opt_status(*previous)),
{
    if is_working {
        return false;
    }
    match previous {
        None => true,
        Some(state) => state.task_state.is_none() || is_empty_text(state.summary.as_str()),
    }
}

/// Whether the model is asked about a session.
pub fn should_summarize(
    source: NotifySource,
    message_count: usize,
    is_working: bool,
    previous: &Option<StatusState>,
) -> (r: bool)
    ensures
        r == asks_model(source, message_count, is_working, opt_status(*previous)),
{
    if message_count == 0 {
        return false;
    }
    if source == NotifySource::Sweep && !is_working {
        return false;
    }
    let unchanged = match previous {
        Some(state) => state.based_on_message_count == message_count,
        None => false,
    };
    !unchanged || is_working || owes(is_working, previous)
}

/// The status after the model answered or failed to: its answer, or, for an
/// idle session that owes a status, the old recap with the verdict that input
/// is needed; otherwise the old status stands. An answer without a verdict
/// keeps the old one where the messages are the same.
pub open spec fn settled_status(
    previous: Option<StatusView>,
    message_count: usize,
    is_working: bool,
    generated: Option<GeneratedView>,
) -> Option<StatusView> {
    match generated {
        Some(generated) => Some(
            StatusView {
                summary: generated.summary,
                task_state: if generated.task_state is Some {
                    generated.task_state
                } else if previous is Some && previous->0.based_on_message_count == message_count {
                    previous->0.task_state
                } else {
                    None
                },
                based_on_message_count: message_count,
            },
        ),
        None => if owes_status(is_working, previous) {
            Some(
                StatusView {
                    summary: match previous {
                        Some(state) => state.summary,
                        None => Seq::empty(),
                    },
                    task_state: Some(AgentTaskState::NeedsInput),
                    based_on_message_count: message_count,
                },
            )
        } else {
            None
        },
    }
}

/// Whether clients are told of a status: its recap or verdict changed, or, on
/// an idle session, its messages did.
pub open spec fn status_changed(
    previous: Option<StatusView>,
    status: StatusView,
    is_working: bool,
) -> bool {
    match previous {
        None => true,
        Some(state) => state.summary != status.summary || state.task_state != status.task_state
            || (!is_working && state.based_on_message_count != status.based_on_message_count),
    }
}

/// A settled status, and whether clients are told of it.
pub struct SettledStatus {
    pub status: StatusState,
    pub broadcast: bool,
}

/// The status after the model answered or failed to; none where the old one
/// stands.
pub fn summarize(
    previous: &Option<StatusState>,
    message_count: usize,
    is_working: bool,
    generated: Option<GeneratedStatus>,
) -> (r: Option<SettledStatus>)
    ensures
        ({
            let settled = settled_status(
                opt_status(*previous),
                message_count,
                is_working,
                opt_generated(generated),
            );
            match r {
                Some(got) => settled == Some(got.status@) && got.broadcast == status_changed(
                    opt_status(*previous),
                    got.status@,
                    is_working,
                ),
                None => settled is None,
            }
        }),
{
    let status = match generated {
        Some(generated) => {
            let mut task_state = generated.task_state;
            if task_state.is_none() {
                match previous {
                    Some(state) => {
                        if state.based_on_message_count == message_count {
                            task_state = state.task_state;
                        }
                    },
                    None => {},
                }
            }
            StatusState {
                summary: generated.summary,
                task_state,
                based_on_message_count: message_count,
            }
        },
        None => {
            if !owes(is_working, previous) {
                return None;
            }
            let summary = match previous {
                Some(state) => state.summary.clone(),
                None => String::new(),
            };
            StatusState {
                summary,
                task_state: Some(AgentTaskState::NeedsInput),
                based_on_message_count: message_count,
            }
        },
    };
    let broadcast = match previous {
        None => true,
        Some(state) => state.summary != status.summary || state.task_state != status.task_state
            || (!is_working && state.based_on_message_count != status.based_on_message_count),
    };
    Some(SettledStatus { status, broadcast })
}

/// An idle session is never left unjudged: once it was summarized its status
/// carries a verdict, whether or not the model answered (an answer for an idle
/// session always carries one).
pub proof fn law_idle_sessions_are_judged(
    previous: Option<StatusView>,
    message_count: usize,
    generated: Option<GeneratedView>,
)
    requires
        generated is Some ==> generated->0.task_state is Some,
        owes_status(false, previous) || generated is Some,
    ensures
        settled_status(previous, message_count, false, generated) is Some,
        settled_status(previous, message_count, false, generated)->0.task_state is Some,
        settled_status(previous, message_count, false, generated)->0.based_on_message_count
            == message_count,
{
}

/// A judged idle session whose messages did not change is not asked about
/// again, and a failed refresh of it changes nothing.
pub proof fn law_settled_sessions_rest(source: NotifySource, previous: StatusView)
    requires
        previous.task_state is Some,
        previous.summary.len() > 0,
    ensures
        !asks_model(source, previous.based_on_message_count, false, Some(previous)),
        settled_status(Some(previous), previous.based_on_message_count, false, None) is None,
{
}

/// A refresh of a working session keeps a verdict that is still about the same
/// messages.
pub proof fn law_working_refresh_keeps_the_verdict(
    previous: StatusView,
    summary: Seq<char>,
)
    ensures
        settled_status(
            Some(previous),
            previous.based_on_message_count,
            true,
            Some(GeneratedView { summary, task_state: None }),
        )->0.task_state == previous.task_state,
{
}

/// What the summarizer's wait ended with.
#[derive(Debug, Clone, Copy, PartialEq, Eq, Structural)]
pub enum WaitEnd {
    /// A turn settled.
    Turn,
    /// The sweep is due.
    Sweep,
    /// The quiet window passed.
    Quiet,
    /// The worker shuts down.
    Closed,
}

/// Where the summarizer is.
#[derive(Debug, Clone, Copy, PartialEq, Eq, Structural)]
pub enum WaitState {
    /// Waiting for a turn or the sweep.
    Idle,
    /// Waiting for the quiet window to pass.
    Settling,
}

/// What the summarizer does next.
#[derive(Debug, Clone, Copy, PartialEq, Eq, Structural)]
pub enum WaitAction {
    /// Wait for a turn or the sweep.
    WaitForTurn,
    /// Wait for the quiet window, started anew.
    WaitForQuiet,
    /// Summarize for this reason.
    Summarize(NotifySource),
    Stop,
}

/// The summarizer's next state and action: a settled turn starts the quiet
/// window, each further one starts it anew, its end summarizes, and the sweep
/// summarizes directly.
pub open spec fn wait_step(state: WaitState, end: WaitEnd) -> (WaitState, WaitAction) {
    match (state, end) {
        (_, WaitEnd::Closed) => (state, WaitAction::Stop),
        (WaitState::Idle, WaitEnd::Turn) => (WaitState::Settling, WaitAction::WaitForQuiet),
        (WaitState::Idle, WaitEnd::Sweep) => (
            WaitState::Idle,
            WaitAction::Summarize(NotifySource::Sweep),
        ),
        (WaitState::Idle, WaitEnd::Quiet) => (WaitState::Idle, WaitAction::WaitForTurn),
        (WaitState::Settling, WaitEnd::Quiet) => (
            WaitState::Idle,
            WaitAction::Summarize(NotifySource::TurnSettled),
        ),
        (WaitState::Settling, _) => (WaitState::Settling, WaitAction::WaitForQuiet),
    }
}

/// The summarizer's next state and action.
pub fn run_step(state: &mut WaitState, end: WaitEnd) -> (r: WaitAction)
    ensures
        (*final(state), r) == wait_step(*old(state), end),
{
    match end {
        WaitEnd::Closed => WaitAction::Stop,
        WaitEnd::Turn => {
            *state = WaitState::Settling;
            WaitAction::WaitForQuiet
        },
        WaitEnd::Sweep => match *state {
            WaitState::Idle => WaitAction::Summarize(NotifySource::Sweep),
            WaitState::Settling => WaitAction::WaitForQuiet,
        },
        WaitEnd::Quiet => match *state {
            WaitState::Idle => WaitAction::WaitForTurn,
            WaitState::Settling => {
                *state = WaitState::Idle;
                WaitAction::Summarize(NotifySource::TurnSettled)
            },
        },
    }
}

// ---------------------------------------------------------------------------
// What the model is shown
// ---------------------------------------------------------------------------

/// The texts of the text blocks among `blocks`.
pub open spec fn text_parts(blocks: Seq<JsonView>) -> Seq<Seq<char>>
    decreases blocks.len(),
{
    if blocks.len() == 0 {
        Seq::empty()
    } else {
        let before = text_parts(blocks.drop_last());
        let block = blocks.last();
        if block.get_str("type"@) == Some("text"@) && block.get_str("text"@) is Some {
            before.push(block.get_str("text"@)->0)
        } else {
            before
        }
    }
}

/// The names of the tool calls among `blocks`.
pub open spec fn tool_parts(blocks: Seq<JsonView>) -> Seq<Seq<char>>
    decreases blocks.len(),
{
    if blocks.len() == 0 {
        Seq::empty()
    } else {
        let before = tool_parts(blocks.drop_last());
        let block = blocks.last();
        if block.get_str("type"@) != Some("text"@) && (block.get_str("type"@) == Some("tool_use"@)
            || block.get_str("type"@) == Some("toolUse"@)) && block.get_str("name"@) is Some {
            before.push(block.get_str("name"@)->0)
        } else {
            before
        }
    }
}

/// The text of a message's content: a string as it is, text blocks on lines.
pub open spec fn content_text(content: JsonView) -> Seq<char> {
    match content {
        JsonView::Str(text) => text,
        JsonView::Array(blocks) => join(text_parts(blocks), "\n"@),
        _ => Seq::empty(),
    }
}

/// The tools that a message's content calls.
pub open spec fn content_tools(content: JsonView) -> Seq<Seq<char>> {
    match content {
        JsonView::Array(blocks) => tool_parts(blocks),
        _ => Seq::empty(),
    }
}

/// The text of a message's content, and the tools that it calls.
pub fn message_text(content: &Json) -> (r: (String, Vec<String>))
    ensures
        r.0@ == content_text(content@),
        texts(r.1@) == content_tools(content@),
{
    match content {
        Json::Str(text) => {
            let none: Vec<String> = Vec::new();
            assert(texts(none@) =~= Seq::empty());
            (text.clone(), none)
        },
        Json::Array(blocks) => {
            let ghost all = items_view(blocks@);
            proof {
                lemma_array_view(*content);
            }
            let mut parts: Vec<String> = Vec::new();
            let mut tools: Vec<String> = Vec::new();
            let mut i: usize = 0;
            assert(texts(parts@) =~= text_parts(all.take(0)));
            assert(texts(tools@) =~= tool_parts(all.take(0)));
            while i < blocks.len()
                invariant
                    i <= blocks@.len(),
                    all.len() == blocks@.len(),
                    forall|j: int| 0 <= j < blocks@.len() ==> #[trigger] all[j] == blocks@[j]@,
                    texts(parts@) == text_parts(all.take(i as int)),
                    texts(tools@) == tool_parts(all.take(i as int)),
                decreases blocks@.len() - i,
            {
                let ghost parts_before = texts(parts@);
                let ghost tools_before = texts(tools@);
                assert(all.take(i + 1).drop_last() =~= all.take(i as int));
                assert(all.take(i + 1).last() == all[i as int]);
                let block = &blocks[i];
                let kind = block.get_str("type");
                if is_text(kind, "text") {
                    match block.get_str("text") {
                        Some(text) => {
                            parts.push(text.to_owned());
                            assert(texts(parts@) =~= parts_before.push(text@));
                        },
                        None => {},
                    }
                } else if is_text(kind, "tool_use") || is_text(kind, "toolUse") {
                    match block.get_str("name") {
                        Some(name) => {
                            tools.push(name.to_owned());
                            assert(texts(tools@) =~= tools_before.push(name@));
                        },
                        None => {},
                    }
                }
                i = i + 1;
            }
            assert(all.take(i as int) =~= all);
            (join_texts(&parts, "\n"), tools)
        },
        _ => {
            let none: Vec<String> = Vec::new();
            assert(texts(none@) =~= Seq::empty());
            (String::new(), none)
        },
    }
}

/// The text on one line, its white space made single blanks, cut to `max`
/// characters with an ellipsis behind the cut.
pub open spec fn clamped(text: Seq<char>, max: nat) -> Seq<char> {
    let line = join(words(text), " "@);
    if line.len() > max {
        line.take(max as int).push('\u{2026}')
    } else {
        line
    }
}

/// The text on one line, cut to `max` characters.
pub fn clamp(text: &str, max: usize) -> (r: String)
    ensures
        r@ == clamped(text@, max as nat),
{
    let parts = split_words(text);
    let line = join_texts(&parts, " ");
    let chars = chars_of(line.as_str());
    if chars.len() > max {
        let mut out = text_of(&chars, 0, max);
        assert(out@ =~= line@.take(max as int));
        out.push('\u{2026}');
        out
    } else {
        line
    }
}

/// A clamped text is at most one character longer than its bound: a line that
/// fits is kept whole, and one that does not is cut at the bound, with an
/// ellipsis behind the cut.
pub proof fn law_clamped_is_short(text: Seq<char>, max: nat)
    ensures
        join(words(text), " "@).len() <= max ==> clamped(text, max) == join(words(text), " "@),
        join(words(text), " "@).len() > max ==> clamped(text, max).len() == max + 1 && clamped(
            text,
            max,
        ).last() == '\u{2026}' && clamped(text, max).drop_last() =~= join(words(text), " "@).take(
            max as int,
        ),
{
}

/// The distinct texts, in the order of their first occurrence.
pub open spec fn distinct(values: Seq<Seq<char>>) -> Seq<Seq<char>>
    decreases values.len(),
{
    if values.len() == 0 {
        Seq::empty()
    } else {
        let before = distinct(values.drop_last());
        if before.contains(values.last()) {
            before
        } else {
            before.push(values.last())
        }
    }
}

fn distinct_texts(values: &Vec<String>) -> (r: Vec<String>)
    ensures
        texts(r@) == distinct(texts(values@)),
{
    let ghost all = texts(values@);
    let mut out: Vec<String> = Vec::new();
    let mut i: usize = 0;
    assert(texts(out@) =~= distinct(all.take(0)));
    while i < values.len()
        invariant
            i <= values@.len(),
            all == texts(values@),
            texts(out@) == distinct(all.take(i as int)),
        decreases values@.len() - i,
    {
        let ghost before = texts(out@);
        assert(all.take(i + 1).drop_last() =~= all.take(i as int));
        assert(all.take(i + 1).last() == values@[i as int]@);
        if !crate::text::holds_text(&out, values[i].as_str()) {
            out.push(values[i].clone());
            assert(texts(out@) =~= before.push(values@[i as int]@));
        }
        i = i + 1;
    }
    assert(all.take(i as int) =~= all);
    out
}

/// Whether messages of a role are shown.
pub open spec fn shown_role(role: Seq<char>) -> bool {
    role == "user"@ || role == "assistant"@ || role == "toolResult"@ || role == "custom"@
}

/// What is shown of a message: its clamped text, then the tools it calls.
pub open spec fn shown_body(content: Option<JsonView>) -> Seq<char> {
    let text = match content {
        Some(content) => content_text(content),
        None => Seq::empty(),
    };
    let tools = match content {
        Some(content) => distinct(content_tools(content)),
        None => Seq::empty(),
    };
    let body = clamped(text, SUMMARY_MAX_CHARS_PER_MESSAGE as nat);
    let note = if tools.len() == 0 {
        Seq::empty()
    } else {
        "[tools: "@ + join(tools, ", "@) + "]"@
    };
    if body.len() > 0 && note.len() > 0 {
        body + " "@ + note
    } else if body.len() > 0 {
        body
    } else {
        note
    }
}

/// The line of a message, where it has one: its role and what is shown of it.
pub open spec fn context_line(message: JsonView) -> Option<Seq<char>> {
    match message.get_str("role"@) {
        Some(role) => if shown_role(role) && shown_body(message.get("content"@)).len() > 0 {
            Some(role + ": "@ + shown_body(message.get("content"@)))
        } else {
            None
        },
        None => None,
    }
}

/// The lines of a run of messages.
pub open spec fn context_lines(messages: Seq<JsonView>) -> Seq<Seq<char>>
    decreases messages.len(),
{
    if messages.len() == 0 {
        Seq::empty()
    } else {
        let before = context_lines(messages.drop_last());
        match context_line(messages.last()) {
            Some(line) => before.push(line),
            None => before,
        }
    }
}

/// The trailing messages that are shown.
pub open spec fn recent(messages: Seq<JsonView>) -> Seq<JsonView> {
    if messages.len() > SUMMARY_CONTEXT_MESSAGES {
        messages.skip(messages.len() - SUMMARY_CONTEXT_MESSAGES)
    } else {
        messages
    }
}

/// The body of the request: whether the agent works, then its recent messages.
pub open spec fn status_context(messages: Seq<JsonView>, is_working: bool) -> Seq<char> {
    let state = if is_working {
        "working"@
    } else {
        "idle (finished its turn)"@
    };
    "<agent-state>"@ + state + "</agent-state>\n<conversation>\n"@ + join(
        context_lines(recent(messages)),
        "\n"@,
    ) + "\n</conversation>"@
}

fn line_of_message(message: &Json) -> (r: Option<String>)
    ensures
        opt_text(r) == context_line(message@),
{
    let role = match message.get_str("role") {
        Some(role) => role,
        None => {
            return None;
        },
    };
    if !(same_text(role, "user") || same_text(role, "assistant") || same_text(role, "toolResult")
        || same_text(role, "custom")) {
        return None;
    }
    let none: Vec<String> = Vec::new();
    assert(texts(none@) =~= Seq::empty());
    let (text, tools) = match message.get("content") {
        Some(content) => message_text(content),
        None => (String::new(), none),
    };
    let body = clamp(text.as_str(), SUMMARY_MAX_CHARS_PER_MESSAGE);
    let seen = distinct_texts(&tools);
    assert(distinct(Seq::<Seq<char>>::empty()) =~= Seq::empty());
    let note = if seen.len() == 0 {
        String::new()
    } else {
        concat3("[tools: ", join_texts(&seen, ", ").as_str(), "]")
    };
    assert(texts(seen@).len() == seen@.len());
    let shown = if !is_empty_text(body.as_str()) && !is_empty_text(note.as_str()) {
        concat3(body.as_str(), " ", note.as_str())
    } else if !is_empty_text(body.as_str()) {
        body
    } else {
        note
    };
    assert(shown@ =~= shown_body(message@.get("content"@)));
    if is_empty_text(shown.as_str()) {
        None
    } else {
        Some(concat3(role, ": ", shown.as_str()))
    }
}

/// The body of the request: whether the agent works, then its recent messages.
pub fn build_status_context(messages: &Vec<Json>, is_working: bool) -> (r: String)
    ensures
        r@ == status_context(items_view(messages@), is_working),
{
    let ghost all = items_view(messages@);
    proof {
        lemma_items_view(messages@);
    }
    let start: usize = if messages.len() > SUMMARY_CONTEXT_MESSAGES {
        messages.len() - SUMMARY_CONTEXT_MESSAGES
    } else {
        0
    };
    let ghost shown = recent(all);
    assert(shown =~= all.skip(start as int));
    let mut lines: Vec<String> = Vec::new();
    let mut i: usize = start;
    assert(texts(lines@) =~= context_lines(shown.take(0)));
    while i < messages.len()
        invariant
            start <= i <= messages@.len(),
            all.len() == messages@.len(),
            shown == all.skip(start as int),
            forall|j: int| 0 <= j < messages@.len() ==> #[trigger] all[j] == messages@[j]@,
            texts(lines@) == context_lines(shown.take(i - start)),
        decreases messages@.len() - i,
    {
        let ghost before = texts(lines@);
        assert(shown.take(i - start + 1).drop_last() =~= shown.take(i - start));
        assert(shown.take(i - start + 1).last() == all[i as int]);
        match line_of_message(&messages[i]) {
            Some(line) => {
                lines.push(line);
                assert(texts(lines@) =~= before.push(line@));
            },
            None => {},
        }
        i = i + 1;
    }
    assert(shown.take(i - start) =~= shown);
    let state = if is_working {
        "working"
    } else {
        "idle (finished its turn)"
    };
    concat5(
        "<agent-state>",
        state,
        "</agent-state>\n<conversation>\n",
        join_texts(&lines, "\n").as_str(),
        "\n</conversation>",
    )
}

/// A model that may be asked: its provider and id, and whether a key for it is
/// configured.
#[derive(Debug, PartialEq, Eq)]
pub struct ModelFacts {
    pub provider: String,
    pub id: String,
    pub has_auth: bool,
}

/// Whether a model is the summary model.
pub open spec fn is_summary_model(model: ModelFacts) -> bool {
    model.provider@ == SUMMARY_MODEL_PROVIDER@ && model.id@ == SUMMARY_MODEL_ID@
}

/// The position of the summary model among the registered models: the first
/// entry of it, and none where no key is configured for that entry.
pub fn resolve_summary_model(models: &Vec<ModelFacts>) -> (r: Option<usize>)
    ensures
        match r {
            Some(i) => {
                &&& i < models@.len()
                &&& is_summary_model(models@[i as int])
                &&& models@[i as int].has_auth
                &&& forall|j: int| 0 <= j < i ==> !is_summary_model(#[trigger] models@[j])
            },
            None => forall|j: int|
                0 <= j < models@.len() && is_summary_model(#[trigger] models@[j]) && (forall|k: int|
                    0 <= k < j ==> !is_summary_model(#[trigger] models@[k])) ==> !models@[j].has_auth,
        },
{
    let mut i: usize = 0;
    while i < models.len()
        invariant
            i <= models@.len(),
            forall|j: int| 0 <= j < i ==> !is_summary_model(#[trigger] models@[j]),
        decreases models@.len() - i,
    {
        if same_text(models[i].provider.as_str(), SUMMARY_MODEL_PROVIDER) && same_text(
            models[i].id.as_str(),
            SUMMARY_MODEL_ID,
        ) {
            assert(is_summary_model(models@[i as int]));
            if models[i].has_auth {
                return Some(i);
            }
            return None;
        }
        i = i + 1;
    }
    None
}

// ---------------------------------------------------------------------------
// What the model answers
// ---------------------------------------------------------------------------

/// What replacing the first match of a pattern by `regex::Regex::replace`
/// leaves of a text; none where the pattern is not a valid one.
pub uninterp spec fn regex_replaced(
    pattern: Seq<char>,
    text: Seq<char>,
    replacement: Seq<char>,
) -> Option<Seq<char>>;

/// `regex::Regex::new` on the pattern and `Regex::replace` on the text: the
/// text with the leftmost match replaced, or none where the pattern does not
/// compile. The result depends on the three texts alone.
#[verifier::external_body]
fn regex_replace(pattern: &str, text: &str, replacement: &str) -> (r: Option<String>)
    ensures
        opt_text(r) == regex_replaced(pattern@, text@, replacement@),
{
    match regex::Regex::new(pattern) {
        Ok(regex) => Some(regex.replace(text, replacement).into_owned()),
        Err(_) => None,
    }
}

/// Whether `regex::Regex::is_match` finds a pattern in a text; none where the
/// pattern is not a valid one.
pub uninterp spec fn regex_found(pattern: Seq<char>, text: Seq<char>) -> Option<bool>;

/// `regex::Regex::new` on the pattern and `Regex::is_match` on the text:
/// whether the pattern matches anywhere, or none where it does not compile. The
/// result depends on the two texts alone.
#[verifier::external_body]
fn regex_is_match(pattern: &str, text: &str) -> (r: Option<bool>)
    ensures
        r == regex_found(pattern@, text@),
{
    match regex::Regex::new(pattern) {
        Ok(regex) => Some(regex.is_match(text)),
        Err(_) => None,
    }
}

/// An angle bracket's lookalikes as the bracket itself.
pub open spec fn plain_bracket(c: char) -> char {
    if c == '\u{2039}' || c == '\u{ff1c}' {
        '<'
    } else if c == '\u{203a}' || c == '\u{ff1e}' {
        '>'
    } else {
        c
    }
}

/// The text with plain angle brackets.
pub open spec fn plain_brackets(text: Seq<char>) -> Seq<char> {
    Seq::new(text.len(), |i: int| plain_bracket(text[i]))
}

fn with_plain_brackets(text: &str) -> (r: String)
    ensures
        r@ == plain_brackets(text@),
{
    let chars = chars_of(text);
    let mut out = String::new();
    let mut i: usize = 0;
    while i < chars.len()
        invariant
            chars@ == text@,
            i <= chars@.len(),
            out@ == plain_brackets(text@).take(i as int),
        decreases chars@.len() - i,
    {
        let c = chars[i];
        if c == '\u{2039}' || c == '\u{ff1c}' {
            out.push('<');
        } else if c == '\u{203a}' || c == '\u{ff1e}' {
            out.push('>');
        } else {
            out.push(c);
        }
        i = i + 1;
        assert(out@ =~= plain_brackets(text@).take(i as int));
    }
    assert(out@ =~= plain_brackets(text@));
    out
}

/// The places of the contents of the tag pairs of a text in small letters, from
/// position `from` on, read from left to right: each opening tag with the next
/// closing tag.
pub open spec fn tag_spans(low: Seq<char>, open: Seq<char>, close: Seq<char>, from: int) -> Seq<
    (int, int),
>
    decreases low.len() - from,
{
    match find_from(low, open, from) {
        None => Seq::empty(),
        Some(start) => match find_from(low, close, start + open.len()) {
            None => Seq::empty(),
            Some(end) => if from <= start && start + open.len() <= end && end + close.len()
                <= low.len() && end + close.len() > from {
                seq![(start + open.len(), end)] + tag_spans(low, open, close, end + close.len())
            } else {
                Seq::empty()
            },
        },
    }
}

/// Where the characters of a text begin in the text in small letters, no further
/// than its end: a character may become more than one.
pub open spec fn low_starts(text: Seq<char>, end: nat) -> Seq<nat>
    decreases text.len(),
{
    if text.len() == 0 {
        Seq::empty()
    } else {
        let before = low_starts(text.drop_last(), end);
        before.push(low_end(text.drop_last(), end))
    }
}

/// How long a text is in small letters, character by character, no longer than
/// `end`.
pub open spec fn low_end(text: Seq<char>, end: nat) -> nat
    decreases text.len(),
{
    if text.len() == 0 {
        0
    } else {
        let length = low_end(text.drop_last(), end) + lowercase_of(seq![text.last()]).len();
        if length < end {
            length
        } else {
            end
        }
    }
}

/// The first character that begins at a place or behind it; behind the last
/// where there is none.
pub open spec fn first_from(starts: Seq<nat>, place: int, n: int) -> int
    decreases starts.len() - n,
{
    if n >= starts.len() || starts[n] >= place {
        n
    } else {
        first_from(starts, place, n + 1)
    }
}

/// The content of the last pair of a tag, given the text in small letters and
/// where the text's characters begin there.
pub open spec fn last_content_in(
    text: Seq<char>,
    low: Seq<char>,
    starts: Seq<nat>,
    tag: Seq<char>,
) -> Option<Seq<char>> {
    let spans = tag_spans(low, "<"@ + tag + ">"@, "</"@ + tag + ">"@, 0);
    if spans.len() > 0 {
        let (from, to) = spans.last();
        Some(text.subrange(first_from(starts, from, 0), first_from(starts, to, 0)))
    } else {
        None
    }
}

/// The content of the last pair of a tag, case aside.
pub open spec fn last_content(text: Seq<char>, tag: Seq<char>) -> Option<Seq<char>> {
    let low = lowercase_of(text);
    last_content_in(text, low, low_starts(text, low.len()), tag)
}

/// The content of the last pair of a tag, case aside.
pub fn last_tag_content(text: &str, tag: &str) -> (r: Option<String>)
    ensures
        opt_text(r) == last_content(text@, tag@),
{
    let low = lowercase(text);
    let starts = small_starts(text, low.as_str().unicode_len());
    proof {
        lemma_one_start_each(text@, low@.len());
        assert(places_view(starts@).len() == starts@.len());
    }
    tag_content_in(text, low.as_str(), &starts, tag)
}

/// Where the characters of a text begin in the text in small letters, which is
/// `end` long.
fn small_starts(text: &str, end: usize) -> (r: Vec<usize>)
    ensures
        places_view(r@) == low_starts(text@, end as nat),
{
    let chars = chars_of(text);
    let mut starts: Vec<usize> = Vec::new();
    let mut length: usize = 0;
    let mut i: usize = 0;
    assert(text@.take(0) =~= Seq::empty());
    assert(places_view(starts@) =~= Seq::empty());
    while i < chars.len()
        invariant
            i <= chars@.len(),
            chars@ == text@,
            length <= end,
            length == low_end(text@.take(i as int), end as nat),
            places_view(starts@) == low_starts(text@.take(i as int), end as nat),
        decreases chars@.len() - i,
    {
        let ghost before = text@.take(i as int);
        let ghost after = text@.take(i + 1);
        proof {
            assert(after.drop_last() =~= before);
            assert(after.last() == chars@[i as int]);
        }
        let ghost held = places_view(starts@);
        starts.push(length);
        assert(places_view(starts@) =~= held.push(length as nat));
        let one = text_of(&chars, i, i + 1);
        assert(one@ =~= seq![chars@[i as int]]);
        let added = lowercase(one.as_str()).as_str().unicode_len();
        if added < end - length {
            length = length + added;
        } else {
            length = end;
        }
        i = i + 1;
    }
    assert(text@.take(i as int) =~= text@);
    starts
}

/// Places as numbers.
pub open spec fn places_view(places: Seq<usize>) -> Seq<nat> {
    Seq::new(places.len(), |i: int| places[i] as nat)
}

proof fn lemma_one_start_each(text: Seq<char>, end: nat)
    ensures
        low_starts(text, end).len() == text.len(),
    decreases text.len(),
{
    if text.len() > 0 {
        lemma_one_start_each(text.drop_last(), end);
    }
}

proof fn lemma_first_from(starts: Seq<nat>, left: int, right: int, n: int)
    requires
        left <= right,
        0 <= n <= starts.len(),
    ensures
        n <= first_from(starts, left, n) <= first_from(starts, right, n) <= starts.len(),
    decreases starts.len() - n,
{
    if n < starts.len() && starts[n] < left {
        lemma_first_from(starts, left, right, n + 1);
    } else if n < starts.len() && starts[n] < right {
        lemma_first_from(starts, right, right, n + 1);
    }
}

fn first_at(starts: &Vec<usize>, place: usize) -> (r: usize)
    ensures
        r <= starts@.len(),
        r == first_from(places_view(starts@), place as int, 0),
{
    let ghost all = places_view(starts@);
    let mut n: usize = 0;
    while n < starts.len() && starts[n] < place
        invariant
            n <= starts@.len(),
            all == places_view(starts@),
            first_from(all, place as int, 0) == first_from(all, place as int, n as int),
        decreases starts@.len() - n,
    {
        assert(all[n as int] == starts@[n as int]);
        n = n + 1;
    }
    n
}

/// The content of the last pair of a tag, given the text in small letters and
/// where the text's characters begin there.
pub fn tag_content_in(text: &str, low: &str, starts: &Vec<usize>, tag: &str) -> (r: Option<String>)
    requires
        starts@.len() == text@.len(),
    ensures
        opt_text(r) == last_content_in(text@, low@, places_view(starts@), tag@),
{
    let low = chars_of(low);
    let chars = chars_of(text);
    let open_text = concat3("<", tag, ">");
    let close_text = concat3("</", tag, ">");
    let open = chars_of(open_text.as_str());
    let close = chars_of(close_text.as_str());
    proof {
        reveal_strlit("<");
        assert(open@.len() > 0);
    }
    let ghost all = tag_spans(low@, open@, close@, 0);
    let mut content: Option<(usize, usize)> = None;
    let mut search: usize = 0;
    let length: usize = low.len();
    loop
        invariant_except_break
            content is None ==> all == tag_spans(low@, open@, close@, search as int),
            content matches Some((from, to)) ==> {
                let rest = tag_spans(low@, open@, close@, search as int);
                &&& from <= to
                &&& all.len() > 0
                &&& rest.len() == 0 ==> all.last() == (from as int, to as int)
                &&& rest.len() > 0 ==> rest.last() == all.last()
            },
        invariant
            open@.len() > 0,
            low@.len() == length,
            search <= length,
            all == tag_spans(low@, open@, close@, 0),
        ensures
            match content {
                None => all.len() == 0,
                Some((from, to)) => from <= to && all.len() > 0 && all.last() == (
                    from as int,
                    to as int,
                ),
            },
        decreases low@.len() - search,
    {
        let ghost rest = tag_spans(low@, open@, close@, search as int);
        let start = match find_at(&low, &open, search) {
            Some(start) => start,
            None => {
                break;
            },
        };
        let from = start + open.len();
        let to = match find_at(&low, &close, from) {
            Some(to) => to,
            None => {
                break;
            },
        };
        let next = to + close.len();
        let ghost after = tag_spans(low@, open@, close@, next as int);
        proof {
            assert(rest =~= seq![(from as int, to as int)] + after);
            if after.len() > 0 {
                assert(rest.last() == after.last());
            } else {
                assert(rest.last() == (from as int, to as int));
            }
        }
        content = Some((from, to));
        search = next;
    }
    match content {
        Some((from, to)) => {
            proof {
                lemma_first_from(places_view(starts@), from as int, to as int, 0);
            }
            let begin = first_at(starts, from);
            let end = first_at(starts, to);
            Some(text_of(&chars, begin, end))
        },
        None => None,
    }
}

/// What is left of a recap behind the cut of its trailer: without white space,
/// quotes and closing punctuation at its ends.
pub open spec fn recap_body(cut: Seq<char>) -> Seq<char> {
    trim(
        trim_end(
            trim_end(
                trim_start(trim(cut), seq!['"', '\u{201c}', '\'']),
                seq!['"', '\u{201d}', '\''],
            ),
            seq!['.', ' '],
        ),
    )
}

/// What is left of a recap behind the cut of its trailer.
pub fn strip_recap(cut: &str) -> (r: String)
    ensures
        r@ == recap_body(cut@),
{
    let opening: Vec<char> = vec!['"', '\u{201c}', '\''];
    let closing: Vec<char> = vec!['"', '\u{201d}', '\''];
    let stops: Vec<char> = vec!['.', ' '];
    assert(opening@ =~= seq!['"', '\u{201c}', '\'']);
    assert(closing@ =~= seq!['"', '\u{201d}', '\'']);
    assert(stops@ =~= seq!['.', ' ']);
    let value = trim_text(cut);
    let value = trim_start_of(value.as_str(), &opening);
    let value = trim_end_of(value.as_str(), &closing);
    let value = trim_end_of(value.as_str(), &stops);
    trim_text(value.as_str())
}

/// Whether a recap is shown: it has text, is no tag, echoes no instruction,
/// counts no words and is no longer than a line.
pub open spec fn recap_accepted(value: Seq<char>, counts_words: bool) -> bool {
    &&& value.len() > 0
    &&& value[0] != '<'
    &&& !contains_text(lower(value), "present-tense"@)
    &&& !contains_text(lower(value), "12 words"@)
    &&& !counts_words
    &&& words(value).len() <= MAX_RECAP_WORDS
}

/// Whether a recap is shown, given whether it counts words.
pub fn accept_recap(value: &str, counts_words: bool) -> (r: bool)
    ensures
        r == recap_accepted(value@, counts_words),
{
    if is_empty_text(value) || value.get_char(0) == '<' {
        return false;
    }
    let low = lower_text(value);
    if has_text(low.as_str(), "present-tense") || has_text(low.as_str(), "12 words") {
        return false;
    }
    if counts_words {
        return false;
    }
    let parts = split_words(value);
    assert(texts(parts@).len() == parts@.len());
    parts.len() <= MAX_RECAP_WORDS
}

/// The recap that is shown of what the model wrote, where one is.
pub open spec fn cleaned_recap(raw: Seq<char>) -> Option<Seq<char>> {
    match regex_replaced(REASONING_TRAILER@, trim(raw), ""@) {
        None => None,
        Some(cut) => match regex_found(COUNTING_ARTIFACT@, recap_body(cut)) {
            None => None,
            Some(counts_words) => if recap_accepted(recap_body(cut), counts_words) {
                Some(recap_body(cut))
            } else {
                None
            },
        },
    }
}

/// The recap that is shown of what the model wrote: the word count it appends
/// is cut, the rest is stripped, and echoes and counts are refused.
pub fn clean_recap(raw: &str) -> (r: Option<String>)
    ensures
        opt_text(r) == cleaned_recap(raw@),
{
    let trimmed = trim_text(raw);
    let cut = match regex_replace(REASONING_TRAILER, trimmed.as_str(), "") {
        Some(cut) => cut,
        None => {
            return None;
        },
    };
    let value = strip_recap(cut.as_str());
    let counts_words = match regex_is_match(COUNTING_ARTIFACT, value.as_str()) {
        Some(counts_words) => counts_words,
        None => {
            return None;
        },
    };
    if accept_recap(value.as_str(), counts_words) {
        Some(value)
    } else {
        None
    }
}

/// The verdict in the content of a status tag; only a plain completion counts
/// as one.
pub open spec fn verdict_of(status: Option<Seq<char>>) -> AgentTaskState {
    match status {
        Some(status) => if lower(trim(status)) == "completed"@ {
            AgentTaskState::Completed
        } else {
            AgentTaskState::NeedsInput
        },
        None => AgentTaskState::NeedsInput,
    }
}

/// The status of a recap: a working session's carries no verdict.
pub open spec fn status_of(
    summary: Option<Seq<char>>,
    status: Option<Seq<char>>,
    is_working: bool,
) -> Option<GeneratedView> {
    match summary {
        None => None,
        Some(summary) => Some(
            GeneratedView {
                summary,
                task_state: if is_working {
                    None
                } else {
                    Some(verdict_of(status))
                },
            },
        ),
    }
}

/// The status of a recap and the content of a status tag.
pub fn status_from(summary: Option<String>, status: Option<String>, is_working: bool) -> (r: Option<
    GeneratedStatus,
>)
    ensures
        opt_generated(r) == status_of(opt_text(summary), opt_text(status), is_working),
{
    let summary = match summary {
        Some(summary) => summary,
        None => {
            return None;
        },
    };
    if is_working {
        return Some(GeneratedStatus { summary, task_state: None });
    }
    let completed = match &status {
        Some(status) => {
            let plain = lower_text(trim_text(status.as_str()).as_str());
            same_text(plain.as_str(), "completed")
        },
        None => false,
    };
    let task_state = if completed {
        AgentTaskState::Completed
    } else {
        AgentTaskState::NeedsInput
    };
    Some(GeneratedStatus { summary, task_state: Some(task_state) })
}

/// The status in the model's answer: its last recap, cleaned, and the verdict
/// of its last status tag.
pub open spec fn parsed_status(text: Seq<char>, is_working: bool) -> Option<GeneratedView> {
    let plain = plain_brackets(text);
    match last_content(plain, "recap"@) {
        None => None,
        Some(recap) => status_of(
            cleaned_recap(recap),
            last_content(plain, "status"@),
            is_working,
        ),
    }
}

/// The status in the model's answer, where it holds one.
pub fn parse_agent_status(text: &str, is_working: bool) -> (r: Option<GeneratedStatus>)
    ensures
        opt_generated(r) == parsed_status(text@, is_working),
{
    let plain = with_plain_brackets(text);
    let recap = match last_tag_content(plain.as_str(), "recap") {
        Some(recap) => recap,
        None => {
            return None;
        },
    };
    let summary = clean_recap(recap.as_str());
    let status = last_tag_content(plain.as_str(), "status");
    status_from(summary, status, is_working)
}

/// An answer for an idle session carries a verdict and one for a working
/// session none; without a recap there is no status.
pub proof fn law_verdicts_are_for_idle_sessions(text: Seq<char>, is_working: bool)
    ensures
        parsed_status(text, is_working) matches Some(status) ==> {
            &&& is_working <==> status.task_state is None
            &&& recap_accepted(status.summary, false)
        },
        last_content(plain_brackets(text), "recap"@) is None ==> parsed_status(
            text,
            is_working,
        ) is None,
{
}

/// The status in the model's response.
pub open spec fn generated_of(
    failed: bool,
    blocks: Seq<Seq<char>>,
    is_working: bool,
) -> Option<GeneratedView> {
    if failed {
        None
    } else {
        parsed_status(join(blocks, "\n"@), is_working)
    }
}

/// The status in the model's response: none for a failed call, else the one in
/// its text blocks, joined by line breaks.
pub fn generated_status(failed: bool, blocks: &Vec<String>, is_working: bool) -> (r: Option<
    GeneratedStatus,
>)
    ensures
        opt_generated(r) == generated_of(failed, texts(blocks@), is_working),
{
    if failed {
        return None;
    }
    parse_agent_status(join_texts(blocks, "\n").as_str(), is_working)
}

} // verus!
