//! Laws of a session's status line.
use vstd::prelude::*;

use crate::json::JsonView;
use crate::status_line::{
    asks_model, content_text, content_tools, context_line, context_lines, distinct, first_from,
    generated_of, last_content_in, owes_status, parsed_status, plain_bracket, plain_brackets,
    recap_accepted, recent, settled_status, shown_body, shown_role, status_changed, status_context,
    status_of, tag_spans, text_parts, tool_parts, verdict_of, wait_step, AgentTaskState,
    GeneratedView, MAX_RECAP_WORDS, NotifySource, StatusView, SUMMARY_CONTEXT_MESSAGES, WaitAction,
    WaitEnd, WaitState,
};
use crate::text::{contains_text, find_from, join, lower, occurs_at, trim, words};

verus! {

/// An idle session owes a status exactly until it has both a verdict and a recap.
pub proof fn law_idle_sessions_owe_a_status(previous: Option<StatusView>)
    ensures
        !owes_status(true, previous),
        owes_status(false, None),
        previous matches Some(status) ==> (owes_status(false, previous) <==> status.task_state
            is None || status.summary.len() == 0),
{
}

/// The model is asked about a working session with messages whatever woke the
/// summarizer, and never about an empty one; an idle session is asked about only
/// after a turn, and only where its messages changed or a status is owed.
pub proof fn law_the_model_is_asked_when_due(
    source: NotifySource,
    count: usize,
    previous: Option<StatusView>,
)
    ensures
        count == 0 ==> !asks_model(source, count, true, previous) && !asks_model(
            source,
            count,
            false,
            previous,
        ),
        count > 0 ==> asks_model(source, count, true, previous),
        !asks_model(NotifySource::Sweep, count, false, previous),
        count > 0 ==> (asks_model(NotifySource::TurnSettled, count, false, previous) <==> owes_status(
            false,
            previous,
        ) || previous is None || previous->0.based_on_message_count != count),
{
}

/// What the model said is what is kept, for the messages it was said of; a model
/// that did not answer leaves the old recap, and a verdict only where one was owed.
pub proof fn law_answers_are_kept(
    previous: Option<StatusView>,
    count: usize,
    working: bool,
    answer: GeneratedView,
)
    ensures
        settled_status(previous, count, working, Some(answer)) matches Some(status)
            && status.summary == answer.summary && status.based_on_message_count == count && (
        answer.task_state is Some ==> status.task_state == answer.task_state),
        answer.task_state is None && (previous is None || previous->0.based_on_message_count
            != count) ==> settled_status(previous, count, working, Some(answer))->0.task_state
            is None,
        settled_status(previous, count, working, None) is Some <==> owes_status(working, previous),
        settled_status(previous, count, working, None) matches Some(status) ==> status.task_state
            == Some(AgentTaskState::NeedsInput) && (previous matches Some(old) ==> status.summary
            == old.summary) && status.based_on_message_count == count,
{
}

/// Clients are told of a status exactly where it is the first, its recap or verdict
/// changed, or an idle session's messages did.
pub proof fn law_changed_statuses_are_told(old: StatusView, new: StatusView, working: bool)
    ensures
        status_changed(None, new, working),
        old.summary != new.summary || old.task_state != new.task_state ==> status_changed(
            Some(old),
            new,
            working,
        ),
        old.summary == new.summary && old.task_state == new.task_state ==> (status_changed(
            Some(old),
            new,
            working,
        ) <==> !working && old.based_on_message_count != new.based_on_message_count),
{
}

/// A session is summarized once its turns were quiet for a while, and by the sweep;
/// a turn in between starts the quiet anew, and only a worker that closes stops it.
pub proof fn law_sessions_are_summarized_when_quiet(state: WaitState, end: WaitEnd)
    ensures
        wait_step(state, end).1 == WaitAction::Stop <==> end == WaitEnd::Closed,
        wait_step(state, end).1 == WaitAction::Summarize(NotifySource::TurnSettled) <==> state
            == WaitState::Settling && end == WaitEnd::Quiet,
        wait_step(state, end).1 == WaitAction::Summarize(NotifySource::Sweep) <==> state
            == WaitState::Idle && end == WaitEnd::Sweep,
        wait_step(state, WaitEnd::Turn) == (WaitState::Settling, WaitAction::WaitForQuiet),
        wait_step(WaitState::Settling, WaitEnd::Sweep) == (
            WaitState::Settling,
            WaitAction::WaitForQuiet,
        ),
        wait_step(WaitState::Settling, WaitEnd::Quiet).0 == WaitState::Idle,
        wait_step(WaitState::Idle, WaitEnd::Sweep).0 == WaitState::Idle,
        wait_step(WaitState::Idle, WaitEnd::Quiet) == (WaitState::Idle, WaitAction::WaitForTurn),
{
}

/// The text of a message is its text blocks, and its tools are its tool calls, all
/// of them and in order.
pub proof fn law_messages_are_read_whole(blocks: Seq<JsonView>, block: JsonView, text: Seq<char>)
    ensures
        content_text(JsonView::Str(text)) == text,
        content_text(JsonView::Array(blocks)) == join(text_parts(blocks), "\n"@),
        content_tools(JsonView::Array(blocks)) == tool_parts(blocks),
        text_parts(Seq::empty()).len() == 0,
        tool_parts(Seq::empty()).len() == 0,
        block.get_str("type"@) == Some("text"@) && block.get_str("text"@) == Some(text)
            ==> text_parts(blocks.push(block)) == text_parts(blocks).push(text) && tool_parts(
            blocks.push(block),
        ) == tool_parts(blocks),
        block.get_str("type"@) == Some("tool_use"@) && block.get_str("name"@) == Some(text)
            ==> tool_parts(blocks.push(block)) == tool_parts(blocks).push(text) && text_parts(
            blocks.push(block),
        ) == text_parts(blocks),
        block.get_str("type"@) == Some("toolUse"@) && block.get_str("name"@) == Some(text)
            ==> tool_parts(blocks.push(block)) == tool_parts(blocks).push(text),
        block.get_str("type"@) is None ==> text_parts(blocks.push(block)) == text_parts(blocks)
            && tool_parts(blocks.push(block)) == tool_parts(blocks),
{
    assert(blocks.push(block).drop_last() =~= blocks);
    reveal_strlit("text");
    reveal_strlit("tool_use");
    reveal_strlit("toolUse");
    assert("text"@.len() == 4);
    assert("tool_use"@.len() == 8);
    assert("toolUse"@.len() == 7);
}

/// Each tool is named once, at its first call.
pub proof fn law_tools_are_named_once(values: Seq<Seq<char>>)
    ensures
        distinct(values).no_duplicates(),
        forall|value: Seq<char>| #[trigger] distinct(values).contains(value) <==> values.contains(
            value,
        ),
    decreases values.len(),
{
    if values.len() > 0 {
        let before = values.drop_last();
        law_tools_are_named_once(before);
        let old = distinct(before);
        let all = distinct(values);
        assert forall|value: Seq<char>| #[trigger] all.contains(value) <==> values.contains(
            value,
        ) by {
            if values.contains(value) {
                let i = choose|i: int| 0 <= i < values.len() && values[i] == value;
                if i < before.len() {
                    assert(before[i] == value);
                    assert(old.contains(value));
                    let k = choose|k: int| 0 <= k < old.len() && old[k] == value;
                    assert(all[k] == value);
                } else if !old.contains(values.last()) {
                    assert(all[old.len() as int] == value);
                }
            }
            if all.contains(value) {
                let i = choose|i: int| 0 <= i < all.len() && all[i] == value;
                if i < old.len() {
                    assert(old[i] == value);
                    assert(old.contains(value));
                    assert(before.contains(value));
                    let k = choose|k: int| 0 <= k < before.len() && before[k] == value;
                    assert(values[k] == value);
                } else {
                    assert(values[values.len() - 1] == value);
                }
            }
        }
    }
}

/// The model is shown the newest messages of the conversation, each under its role,
/// and whether the agent works.
pub proof fn law_the_newest_messages_are_shown(messages: Seq<JsonView>, working: bool)
    ensures
        messages.len() <= SUMMARY_CONTEXT_MESSAGES ==> recent(messages) == messages,
        messages.len() > SUMMARY_CONTEXT_MESSAGES ==> recent(messages).len()
            == SUMMARY_CONTEXT_MESSAGES && recent(messages).last() == messages.last()
            && forall|i: int|
            0 <= i < SUMMARY_CONTEXT_MESSAGES ==> (#[trigger] recent(messages)[i])
                == messages[messages.len() - SUMMARY_CONTEXT_MESSAGES + i],
        status_context(messages, true) == "<agent-state>"@ + "working"@
            + "</agent-state>\n<conversation>\n"@ + join(context_lines(recent(messages)), "\n"@)
            + "\n</conversation>"@,
        status_context(messages, false) == "<agent-state>"@ + "idle (finished its turn)"@
            + "</agent-state>\n<conversation>\n"@ + join(context_lines(recent(messages)), "\n"@)
            + "\n</conversation>"@,
{
}

/// A message has a line exactly where its role is shown and something of it can be;
/// the line names the role.
pub proof fn law_shown_messages_name_their_role(messages: Seq<JsonView>, message: JsonView)
    ensures
        context_line(message) is Some <==> message.get_str("role"@) is Some && shown_role(
            message.get_str("role"@)->0,
        ) && shown_body(message.get("content"@)).len() > 0,
        context_line(message) matches Some(line) ==> line == message.get_str("role"@)->0 + ": "@
            + shown_body(message.get("content"@)),
        context_lines(messages.push(message)) == (match context_line(message) {
            Some(line) => context_lines(messages).push(line),
            None => context_lines(messages),
        }),
        shown_role("user"@) && shown_role("assistant"@) && shown_role("toolResult"@) && shown_role(
            "custom"@,
        ),
        forall|role: Seq<char>| #[trigger]
            shown_role(role) ==> role == "user"@ || role == "assistant"@ || role == "toolResult"@
                || role == "custom"@,
{
    assert(messages.push(message).drop_last() =~= messages);
}

/// Only the lookalikes of angle brackets are made plain.
pub proof fn law_only_brackets_are_made_plain(text: Seq<char>, c: char)
    ensures
        plain_brackets(text).len() == text.len(),
        forall|i: int|
            0 <= i < text.len() ==> (#[trigger] plain_brackets(text)[i]) == plain_bracket(text[i]),
        plain_bracket('\u{2039}') == '<' && plain_bracket('\u{ff1c}') == '<',
        plain_bracket('\u{203a}') == '>' && plain_bracket('\u{ff1e}') == '>',
        c != '\u{2039}' && c != '\u{ff1c}' && c != '\u{203a}' && c != '\u{ff1e}' ==> plain_bracket(
            c,
        ) == c,
{
}

proof fn lemma_spans(low: Seq<char>, open: Seq<char>, close: Seq<char>, from: int)
    requires
        0 <= from,
        close.len() > 0,
    ensures
        forall|k: int|
            0 <= k < tag_spans(low, open, close, from).len() ==> occurs_at(
                low,
                open,
                (#[trigger] tag_spans(low, open, close, from)[k]).0 - open.len(),
            ) && occurs_at(low, close, tag_spans(low, open, close, from)[k].1)
                && tag_spans(low, open, close, from)[k].0 <= tag_spans(
                low,
                open,
                close,
                from,
            )[k].1 && forall|j: int|
                tag_spans(low, open, close, from)[k].0 <= j < tag_spans(
                    low,
                    open,
                    close,
                    from,
                )[k].1 ==> !#[trigger] occurs_at(low, close, j),
        tag_spans(low, open, close, from).len() == 0 ==> find_from(low, open, from) is None
            || find_from(low, close, find_from(low, open, from)->0 + open.len()) is None,
    decreases low.len() - from,
{
    crate::laws::texts::law_searches_find_the_first(low, open, from);
    match find_from(low, open, from) {
        None => {},
        Some(start) => {
            crate::laws::texts::law_searches_find_the_first(low, close, start + open.len());
            match find_from(low, close, start + open.len()) {
                None => {},
                Some(end) => {
                    lemma_spans(low, open, close, end + close.len());
                    let rest = tag_spans(low, open, close, end + close.len());
                    let all = tag_spans(low, open, close, from);
                    assert(all == seq![(start + open.len(), end)] + rest);
                    assert forall|k: int| 0 <= k < all.len() implies occurs_at(
                        low,
                        open,
                        (#[trigger] all[k]).0 - open.len(),
                    ) && occurs_at(low, close, all[k].1) && all[k].0 <= all[k].1 && forall|j: int|
                        all[k].0 <= j < all[k].1 ==> !#[trigger] occurs_at(low, close, j) by {
                        if k > 0 {
                            assert(all[k] == rest[k - 1]);
                        }
                    }
                },
            }
        },
    }
}

/// A tag's content is what stands between an opening tag and the first closing tag
/// behind it; there is none only where no opening tag is closed.
pub proof fn law_tags_hold_their_content(
    text: Seq<char>,
    low: Seq<char>,
    starts: Seq<nat>,
    tag: Seq<char>,
)
    ensures
        ({
            let open = "<"@ + tag + ">"@;
            let close = "</"@ + tag + ">"@;
            match last_content_in(text, low, starts, tag) {
                Some(content) => exists|from: int, to: int|
                    occurs_at(low, open, from - open.len()) && #[trigger] occurs_at(low, close, to)
                        && from <= to && content == #[trigger] text.subrange(
                        first_from(starts, from, 0),
                        first_from(starts, to, 0),
                    ) && forall|j: int| from <= j < to ==> !#[trigger] occurs_at(low, close, j),
                None => find_from(low, open, 0) is None || find_from(
                    low,
                    close,
                    find_from(low, open, 0)->0 + open.len(),
                ) is None,
            }
        }),
{
    let open = "<"@ + tag + ">"@;
    let close = "</"@ + tag + ">"@;
    reveal_strlit(">");
    assert(">"@.len() == 1);
    assert(close.len() > 0);
    lemma_spans(low, open, close, 0);
    let spans = tag_spans(low, open, close, 0);
    if spans.len() > 0 {
        let last = spans[spans.len() - 1];
        assert(occurs_at(low, close, last.1));
        let content = text.subrange(first_from(starts, last.0, 0), first_from(starts, last.1, 0));
        assert(last_content_in(text, low, starts, tag) == Some(content));
    }
}

/// A recap is shown exactly where it has text, is no tag, echoes no instruction,
/// counts no words and is short.
pub proof fn law_only_proper_recaps_are_shown(value: Seq<char>)
    ensures
        !recap_accepted(value, true),
        !recap_accepted(Seq::empty(), false),
        recap_accepted(value, false) <==> value.len() > 0 && value[0] != '<' && !contains_text(
            lower(value),
            "present-tense"@,
        ) && !contains_text(lower(value), "12 words"@) && words(value).len() <= MAX_RECAP_WORDS,
{
}

/// A session is done only by a plain word of it; anything else needs input, and
/// only an idle session is judged.
pub proof fn law_only_completions_complete(
    summary: Seq<char>,
    status: Option<Seq<char>>,
    working: bool,
)
    ensures
        verdict_of(status) == AgentTaskState::Completed <==> status is Some && lower(
            trim(status->0),
        ) == "completed"@,
        status_of(None, status, working) is None,
        status_of(Some(summary), status, working) == Some(
            GeneratedView {
                summary,
                task_state: if working {
                    None
                } else {
                    Some(verdict_of(status))
                },
            },
        ),
{
}

/// A failed call gives no status, and any other the one that its text gives.
pub proof fn law_failed_calls_give_no_status(
    failed: bool,
    blocks: Seq<Seq<char>>,
    is_working: bool,
)
    ensures
        failed ==> generated_of(failed, blocks, is_working) is None,
        !failed ==> generated_of(failed, blocks, is_working) == parsed_status(
            join(blocks, "\n"@),
            is_working,
        ),
{
}

} // verus!
