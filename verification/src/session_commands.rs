//! The commands of a session that are given as prompts: how they are told from
//! ordinary prompts, and the rows and events that their execution leaves.
use vstd::prelude::*;

use crate::compaction::{compaction_end_event, compaction_start, end_of, start_json};
use crate::engine::{events_view, CompactionOutcome, EngineEvent, EventView};
use crate::json::{items_view, lemma_items_view, Json, JsonView};
use crate::text::{
    chars_of, concat2, is_empty_text, opt_text, run_length, same_text, text_of, trim, trim_text,
    whitespace, word_length,
};

verus! {

/// A session command and its arguments.
#[derive(Debug, PartialEq, Eq)]
pub struct SessionSlashCommand {
    pub name: String,
    pub args: String,
}

/// Whether a name is that of a session command.
pub open spec fn is_session_command(name: Seq<char>) -> bool {
    name == "compact"@ || name == "refine"@ || name == "goal"@ || name == "autonomous"@
}

/// The name and the arguments of a prompt that begins with a slash: the name
/// ends at the first white space, and the arguments are the rest without white
/// space at its ends.
pub open spec fn slash_parts(text: Seq<char>) -> (Seq<char>, Seq<char>) {
    let body = text.drop_first();
    let n = run_length(body, whitespace()) as int;
    (body.take(n), trim(body.skip(n)))
}

/// The session command of a prompt, where it is one.
pub open spec fn session_command(text: Seq<char>) -> Option<(Seq<char>, Seq<char>)> {
    if text.len() > 0 && text[0] == '/' && is_session_command(slash_parts(text).0) {
        Some(slash_parts(text))
    } else {
        None
    }
}

/// Parse a session command out of a prompt, where it is one.
pub fn parse_prompt_session_command(text: &str) -> (r: Option<SessionSlashCommand>)
    ensures
        match r {
            Some(command) => session_command(text@) == Some((command.name@, command.args@)),
            None => session_command(text@) is None,
        },
{
    let chars = chars_of(text);
    let length: usize = chars.len();
    if length == 0 || chars[0] != '/' {
        return None;
    }
    let body = text_of(&chars, 1, length);
    assert(body@ =~= text@.drop_first());
    let n = word_length(body.as_str());
    let body_chars = chars_of(body.as_str());
    let name = text_of(&body_chars, 0, n);
    let rest = text_of(&body_chars, n, body_chars.len());
    assert(name@ =~= body@.take(n as int));
    assert(rest@ =~= body@.skip(n as int));
    if same_text(name.as_str(), "compact") || same_text(name.as_str(), "refine") || same_text(
        name.as_str(),
        "goal",
    ) || same_text(name.as_str(), "autonomous") {
        let args = trim_text(rest.as_str());
        Some(SessionSlashCommand { name, args })
    } else {
        None
    }
}

/// A prompt that does not begin with a slash is no session command.
pub proof fn law_plain_prompts_are_no_commands(text: Seq<char>)
    ensures
        text.len() == 0 || text[0] != '/' ==> session_command(text) is None,
        session_command(text) matches Some((name, args)) ==> is_session_command(name),
{
}

/// The row of a command that failed before it ran.
pub open spec fn failure_row(error: Seq<char>) -> JsonView {
    JsonView::object().field("role"@, JsonView::Str("custom"@)).field(
        "customType"@,
        JsonView::Str("session_slash_command_result"@),
    ).field("content"@, JsonView::Str("Command failed: "@ + error)).field(
        "display"@,
        JsonView::Bool(true),
    ).field("details"@, JsonView::object().field("success"@, JsonView::Bool(false)))
}

/// The row of a command that failed before it ran.
pub fn session_command_failure_row(error: &str) -> (r: Json)
    ensures
        r@ == failure_row(error@),
{
    Json::object().field("role", Json::string("custom")).field(
        "customType",
        Json::string("session_slash_command_result"),
    ).field("content", Json::string(concat2("Command failed: ", error).as_str())).field(
        "display",
        Json::Bool(true),
    ).field("details", Json::object().field("success", Json::Bool(false)))
}

/// What the execution of a session command left: its durable rows, the
/// compaction it ran and the entry that left, the prompt it goes on with, and
/// its error.
#[derive(Debug, PartialEq, Eq)]
pub struct SessionCommandExecution {
    pub messages: Vec<Json>,
    pub compaction: Option<(CompactionOutcome, Json)>,
    pub continuation_prompt: Option<String>,
    pub error: Option<String>,
}

/// Whether an execution is that of a command, with a failure before it ran as a row.
pub open spec fn is_executed(
    result: SessionCommandExecution,
    execution: Result<SessionCommandExecution, String>,
) -> bool {
    match execution {
        Ok(execution) => result == execution,
        Err(error) => items_view(result.messages@) == seq![failure_row(error@)]
            && result.compaction is None && result.continuation_prompt is None && opt_text(result.error)
            == Some(error@),
    }
}

/// The execution of a command, with a failure before it ran as a row of its
/// own.
pub fn executed(execution: Result<SessionCommandExecution, String>) -> (r: SessionCommandExecution)
    ensures
        is_executed(r, execution),
{
    match execution {
        Ok(execution) => execution,
        Err(error) => {
            let row = session_command_failure_row(error.as_str());
            let messages: Vec<Json> = vec![row];
            proof {
                lemma_items_view(messages@);
                assert(items_view(messages@) =~= seq![failure_row(error@)]);
            }
            SessionCommandExecution {
                messages,
                compaction: None,
                continuation_prompt: None,
                error: Some(error),
            }
        },
    }
}

/// The instructions of a compaction: the command's arguments, where there are
/// some.
pub open spec fn instructions(args: Seq<char>) -> Option<Seq<char>> {
    if args.len() == 0 {
        None
    } else {
        Some(args)
    }
}

/// The events of a session command: its rows, then the start and the end of its
/// compaction.
pub open spec fn command_events(
    args: Seq<char>,
    execution: SessionCommandExecution,
) -> Seq<EventView> {
    let rows = items_view(execution.messages@);
    Seq::new(rows.len(), |i: int| EventView::CustomMessage(rows[i])) + match execution.compaction {
        None => Seq::empty(),
        Some((outcome, entry)) => seq![
            EventView::CompactionStart { event: start_json("manual"@, instructions(args)) },
            EventView::Compaction { entry: entry@, event: end_of(outcome@, instructions(args)) },
        ],
    }
}

/// The events of a session command, in the order they are told.
pub fn run_session_command(
    command: &SessionSlashCommand,
    execution: &SessionCommandExecution,
) -> (r: Vec<EngineEvent>)
    ensures
        events_view(r@) == command_events(command.args@, *execution),
{
    let ghost rows = items_view(execution.messages@);
    let ghost told = Seq::new(rows.len(), |i: int| EventView::CustomMessage(rows[i]));
    proof {
        lemma_items_view(execution.messages@);
    }
    let mut events: Vec<EngineEvent> = Vec::new();
    let mut i: usize = 0;
    assert(events_view(events@) =~= told.take(0));
    while i < execution.messages.len()
        invariant
            i <= execution.messages@.len(),
            rows.len() == execution.messages@.len(),
            forall|j: int|
                0 <= j < rows.len() ==> #[trigger] rows[j] == execution.messages@[j]@,
            told == Seq::new(rows.len(), |i: int| EventView::CustomMessage(rows[i])),
            events_view(events@) == told.take(i as int),
        decreases execution.messages@.len() - i,
    {
        let ghost before = events_view(events@);
        events.push(EngineEvent::CustomMessage(execution.messages[i].duplicate()));
        assert(events_view(events@) =~= before.push(EventView::CustomMessage(rows[i as int])));
        i = i + 1;
        assert(events_view(events@) =~= told.take(i as int));
    }
    assert(told.take(i as int) =~= told);
    match &execution.compaction {
        Some((outcome, entry)) => {
            let args = if is_empty_text(command.args.as_str()) {
                None
            } else {
                Some(command.args.as_str())
            };
            let start = EngineEvent::CompactionStart { event: compaction_start("manual", args) };
            let end = EngineEvent::Compaction {
                entry: entry.duplicate(),
                event: compaction_end_event(outcome, args),
            };
            let ghost start_view = start@;
            let ghost end_view = end@;
            events.push(start);
            events.push(end);
            assert(events_view(events@) =~= told + seq![start_view, end_view]);
        },
        None => {
            assert(told + Seq::<EventView>::empty() =~= told);
        },
    }
    events
}

/// How a session command given as a prompt goes on.
#[derive(Debug, PartialEq, Eq)]
pub enum CommandEnd {
    /// An event was refused: nothing more is said.
    Silent,
    /// The prompt is done.
    Done(Result<(), String>),
    /// The turns of a continuation follow.
    Turns { prompt: String },
}

/// How a session command goes on once its events were told: a refused event
/// ends it in silence, then its error ends the prompt, then its continuation
/// runs as turns, and else the prompt is done.
pub open spec fn command_end(execution: SessionCommandExecution, accepted: bool) -> CommandEnd {
    if !accepted {
        CommandEnd::Silent
    } else if execution.error is Some {
        CommandEnd::Done(Err(execution.error->0))
    } else if execution.continuation_prompt is Some {
        CommandEnd::Turns { prompt: execution.continuation_prompt->0 }
    } else {
        CommandEnd::Done(Ok(()))
    }
}

/// How a session command goes on once its events were told.
pub fn settle_session_command(execution: SessionCommandExecution, accepted: bool) -> (r: CommandEnd)
    ensures
        r == command_end(execution, accepted),
{
    if !accepted {
        return CommandEnd::Silent;
    }
    match execution.error {
        Some(error) => CommandEnd::Done(Err(error)),
        None => match execution.continuation_prompt {
            Some(prompt) => CommandEnd::Turns { prompt },
            None => CommandEnd::Done(Ok(())),
        },
    }
}

/// Every session command leaves its rows before its compaction is told, and a
/// command that failed before it ran is told by its failure row alone.
pub proof fn law_rows_come_first(args: Seq<char>, execution: SessionCommandExecution)
    ensures
        forall|i: int|
            0 <= i < items_view(execution.messages@).len() ==> #[trigger] command_events(
                args,
                execution,
            )[i] == EventView::CustomMessage(items_view(execution.messages@)[i]),
        execution.compaction is None ==> command_events(args, execution).len() == items_view(
            execution.messages@,
        ).len(),
        execution.compaction is Some ==> command_events(args, execution).len() == items_view(
            execution.messages@,
        ).len() + 2,
{
}

} // verus!
