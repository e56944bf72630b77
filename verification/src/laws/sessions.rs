//! Laws of a session's file, its usage and its commands.
use vstd::prelude::*;

use crate::compaction::{end_of, start_json};
use crate::engine::EventView;
use crate::json::{group_members, items_view, JsonView};
use crate::session_commands::{
    command_events, failure_row, instructions, is_executed, is_session_command, session_command,
    slash_parts, SessionCommandExecution,
};
use crate::session_usage::{
    blocks_of, costs_of, floor_sub, set_block, summary_of, tokens_of, ScanEntry, ScanView, Tokens,
    Usage,
};
use crate::session_window::{
    holds_id, missing_from, upgraded, with_entries, EntryView, SessionFile, StoreView,
};
use crate::text::{opt_text, run_length, trim, whitespace};

verus! {

/// Tokens add up count by count, and what is taken off leaves no less than nothing.
pub proof fn law_tokens_add_up(tokens: Tokens, other: Tokens, usage: Usage)
    ensures
        tokens.plus(usage).input == tokens.input + usage.input,
        tokens.plus(usage).output == tokens.output + usage.output,
        tokens.plus(usage).cache_read == tokens.cache_read + usage.cache_read,
        tokens.plus(usage).cache_write == tokens.cache_write + usage.cache_write,
        tokens.and(other).less(other) == tokens,
        tokens.and(Tokens::none()) == tokens,
        tokens.less(tokens) == Tokens::none(),
        tokens.and(other) == other.and(tokens),
        forall|a: nat, b: nat| a >= b ==> #[trigger] floor_sub(a, b) + b == a,
        forall|a: nat, b: nat| a < b ==> #[trigger] floor_sub(a, b) == 0,
{
}

/// The spend of a run of blocks is the sum of its blocks.
pub proof fn law_every_block_counts(blocks: Seq<Usage>, usage: Usage)
    ensures
        tokens_of(Seq::empty()) == Tokens::none(),
        tokens_of(blocks.push(usage)) == tokens_of(blocks).plus(usage),
        costs_of(blocks).len() == blocks.len(),
        forall|i: int| 0 <= i < blocks.len() ==> (#[trigger] costs_of(blocks)[i]) == blocks[i].cost,
{
    assert(blocks.push(usage).drop_last() =~= blocks);
}

/// A summary shows all input, cached or not, and the output, and there is none only
/// where nothing was spent.
pub proof fn law_summaries_show_the_spend(tokens: Tokens, free: bool)
    requires
        tokens.fit(),
    ensures
        summary_of(tokens, free) is None <==> free && tokens.input == 0 && tokens.cache_read == 0
            && tokens.cache_write == 0 && tokens.output == 0,
        summary_of(tokens, free) matches Some(summary) ==> summary.input_tokens == tokens.input
            + tokens.cache_read + tokens.cache_write && summary.output_tokens == tokens.output,
{
}

/// An assistant's message with a usage counts under its own entry, once; nobody
/// else's message counts.
pub proof fn law_assistant_messages_count_once(
    scan: ScanView,
    id: Seq<char>,
    role: Option<Seq<char>>,
    usage: Option<Usage>,
)
    ensures
        role != Some("assistant"@) || usage is None ==> scan.with_message(id, role, usage) == scan,
        role == Some("assistant"@) && usage is Some ==> {
            let after = scan.with_message(id, role, usage);
            &&& after.children == scan.children
            &&& after.summarizations == scan.summarizations
            &&& exists|i: int| 0 <= i < after.assistant.len() && #[trigger] after.assistant[i] == (
                id,
                usage->0,
            )
        },
        role == Some("assistant"@) && usage is Some && (forall|i: int|
            0 <= i < scan.assistant.len() ==> (#[trigger] scan.assistant[i]).0 != id)
            ==> scan.with_message(id, role, usage).gross() == scan.gross().plus(usage->0),
{
    if role == Some("assistant"@) && usage is Some {
        lemma_set_block_holds(scan.assistant, id, usage->0);
        let after = scan.with_message(id, role, usage);
        let i = choose|i: int|
            0 <= i < set_block(scan.assistant, id, usage->0).len() && #[trigger] set_block(
                scan.assistant,
                id,
                usage->0,
            )[i] == (id, usage->0);
        assert(after.assistant[i] == (id, usage->0));
        if forall|i: int| 0 <= i < scan.assistant.len() ==> (#[trigger] scan.assistant[i]).0 != id {
            lemma_set_new_block(scan.assistant, id, usage->0);
            assert(blocks_of(scan.assistant.push((id, usage->0))) =~= blocks_of(
                scan.assistant,
            ).push(usage->0));
            law_every_block_counts(blocks_of(scan.assistant), usage->0);
        }
    }
}

proof fn lemma_set_block_holds(
    assistant: Seq<(Seq<char>, Usage)>,
    id: Seq<char>,
    usage: Usage,
)
    ensures
        exists|i: int|
            0 <= i < set_block(assistant, id, usage).len() && #[trigger] set_block(
                assistant,
                id,
                usage,
            )[i] == (id, usage),
    decreases assistant.len(),
{
    let all = set_block(assistant, id, usage);
    if assistant.len() == 0 || assistant[0].0 == id {
        assert(all[0] == (id, usage));
    } else {
        let rest = assistant.drop_first();
        lemma_set_block_holds(rest, id, usage);
        let i = choose|i: int|
            0 <= i < set_block(rest, id, usage).len() && #[trigger] set_block(rest, id, usage)[i]
                == (id, usage);
        assert(all[i + 1] == (id, usage));
    }
}

proof fn lemma_set_new_block(
    assistant: Seq<(Seq<char>, Usage)>,
    id: Seq<char>,
    usage: Usage,
)
    requires
        forall|i: int| 0 <= i < assistant.len() ==> (#[trigger] assistant[i]).0 != id,
    ensures
        set_block(assistant, id, usage) == assistant.push((id, usage)),
    decreases assistant.len(),
{
    if assistant.len() > 0 {
        let rest = assistant.drop_first();
        assert forall|i: int| 0 <= i < rest.len() implies (#[trigger] rest[i]).0 != id by {
            assert(rest[i] == assistant[i + 1]);
        }
        assert(assistant[0].0 != id);
        lemma_set_new_block(rest, id, usage);
        assert(seq![assistant[0]] + rest.push((id, usage)) =~= assistant.push((id, usage)));
    } else {
        assert(seq![(id, usage)] =~= assistant.push((id, usage)));
    }
}

/// A summary of the conversation counts with its own usage.
pub proof fn law_summarizations_count(scan: ScanView, usage: Usage)
    ensures
        scan.with_summarization(Some(usage)).gross() == scan.gross().plus(usage),
        scan.with_summarization(None) == scan,
        scan.with_summarization(Some(usage)).assistant == scan.assistant,
        scan.with_summarization(Some(usage)).children == scan.children,
{
    law_every_block_counts(scan.summarizations, usage);
}

/// An entry counts by its type: messages, attributions and summaries each in their
/// own way, and nothing else at all.
pub proof fn law_entries_count_by_type(scan: ScanView, entry: ScanEntry)
    ensures
        entry.type_@ == "message"@ ==> scan.with_entry(entry) == scan.with_message(
            entry.id@,
            opt_text(entry.role),
            entry.message_usage,
        ),
        entry.type_@ == "child_usage_attributed"@ ==> scan.with_entry(entry)
            == scan.with_attribution(
            opt_text(entry.target_id),
            entry.child_usage,
            entry.aggregate_usage,
        ),
        entry.type_@ == "compaction"@ || entry.type_@ == "branch_summary"@ ==> scan.with_entry(
            entry,
        ) == scan.with_summarization(entry.usage),
        entry.type_@ != "message"@ && entry.type_@ != "child_usage_attributed"@ && entry.type_@
            != "compaction"@ && entry.type_@ != "branch_summary"@ ==> scan.with_entry(entry)
            == scan,
{
    reveal_strlit("message");
    reveal_strlit("child_usage_attributed");
    reveal_strlit("compaction");
    reveal_strlit("branch_summary");
    assert("message"@.len() == 7);
    assert("child_usage_attributed"@.len() == 22);
    assert("compaction"@.len() == 10);
    assert("branch_summary"@.len() == 14);
}

/// What a session spent itself is all that was spent less its children's part, and
/// is summarized exactly where something was spent.
pub proof fn law_own_spend_leaves_the_children_out(scan: ScanView, free: bool)
    requires
        scan.fits(),
    ensures
        scan.own() == scan.gross().less(tokens_of(scan.children)),
        scan.children.len() == 0 ==> scan.own() == scan.gross(),
        scan.summarized(free) is Some <==> summary_of(scan.gross(), free) is Some,
        scan.summarized(free) matches Some(summary) ==> summary.output_tokens == scan.own().output
            && summary.input_tokens == scan.own().input + scan.own().cache_read
            + scan.own().cache_write,
        scan.gross() == tokens_of(blocks_of(scan.assistant)).and(tokens_of(scan.summarizations)),
{
}

/// An attribution that counts keeps the child's block and puts the aggregate in its
/// target's place.
pub proof fn law_attributions_replace_their_target(
    scan: ScanView,
    target: Seq<char>,
    child: Usage,
    aggregate: Usage,
)
    requires
        crate::session_usage::holds_entry(scan.assistant, target),
    ensures
        ({
            let after = scan.with_attribution(Some(target), Some(child), Some(aggregate));
            &&& after.children == scan.children.push(child)
            &&& after.summarizations == scan.summarizations
            &&& exists|i: int| 0 <= i < after.assistant.len() && #[trigger] after.assistant[i] == (
                target,
                aggregate,
            )
        }),
        scan.with_attribution(Some(target), None, Some(aggregate)) == scan,
        scan.with_attribution(Some(target), Some(child), None) == scan,
{
    lemma_set_block_holds(scan.assistant, target, aggregate);
    let after = scan.with_attribution(Some(target), Some(child), Some(aggregate));
    let i = choose|i: int|
        0 <= i < set_block(scan.assistant, target, aggregate).len() && #[trigger] set_block(
            scan.assistant,
            target,
            aggregate,
        )[i] == (target, aggregate);
    assert(after.assistant[i] == (target, aggregate));
}

/// Entries are appended in order behind those that are there, and the newest is the
/// leaf; nothing else of a store changes.
pub proof fn law_appended_entries_come_last(store: StoreView, more: Seq<EntryView>)
    ensures
        ({
            let after = with_entries(store, more);
            &&& after.entries == store.entries + more
            &&& more.len() > 0 ==> after.leaf_id == Some(more.last().id)
            &&& more.len() == 0 ==> after.leaf_id == store.leaf_id
            &&& after.path == store.path && after.header == store.header && after.window
                == store.window && after.persisted_entries == store.persisted_entries
        }),
{
}

/// An upgrade keeps exactly the live entries that the parse does not hold, in their
/// order.
pub proof fn law_upgrades_keep_what_the_parse_lacks(
    live: Seq<EntryView>,
    full: Seq<EntryView>,
)
    ensures
        missing_from(live, full) == live.filter(|entry: EntryView| !holds_id(full, entry.id)),
    decreases live.len(),
{
    reveal(Seq::filter);
    if live.len() > 0 {
        law_upgrades_keep_what_the_parse_lacks(live.drop_last(), full);
    }
}

/// An upgraded store is the parse, whole, with what the live one had more.
pub proof fn law_upgraded_stores_are_whole(live: StoreView, full: StoreView)
    requires
        full.entries.len() + live.entries.len() <= usize::MAX,
    ensures
        upgraded(live, full).entries == full.entries + missing_from(live.entries, full.entries),
        upgraded(live, full).path == full.path,
        upgraded(live, full).header == full.header,
        upgraded(live, full).window is None,
{
}

/// A prompt is a session command exactly where it begins with a slash and the name
/// of one; its arguments are what follows, without the white space around it.
pub proof fn law_slash_commands_are_read(text: Seq<char>)
    ensures
        session_command(text) matches Some((name, args)) ==> text[0] == '/' && is_session_command(
            name,
        ) && (name, args) == slash_parts(text),
        text.len() > 0 && text[0] == '/' && is_session_command(slash_parts(text).0)
            ==> session_command(text) is Some,
        text.len() > 0 ==> slash_parts(text).0 == text.drop_first().take(
            run_length(text.drop_first(), whitespace()) as int,
        ) && slash_parts(text).1 == trim(
            text.drop_first().skip(run_length(text.drop_first(), whitespace()) as int),
        ),
        is_session_command("compact"@) && is_session_command("refine"@) && is_session_command(
            "goal"@,
        ) && is_session_command("autonomous"@),
        forall|name: Seq<char>| #[trigger]
            is_session_command(name) ==> name == "compact"@ || name == "refine"@ || name == "goal"@
                || name == "autonomous"@,
{
}

/// A command that failed before it ran says why, and that it did not succeed.
pub proof fn law_failed_commands_say_why(error: Seq<char>)
    ensures
        failure_row(error).carries("content"@, JsonView::Str("Command failed: "@ + error)),
        failure_row(error).carries("display"@, JsonView::Bool(true)),
        failure_row(error).carries(
            "details"@,
            JsonView::object().field("success"@, JsonView::Bool(false)),
        ),
        failure_row(error).carries("role"@, JsonView::Str("custom"@)),
        failure_row(error).carries(
            "customType"@,
            JsonView::Str("session_slash_command_result"@),
        ),
{
    broadcast use group_members;

}

/// A command's compaction is told from its start to its end, by the instructions it
/// was given, with the entry it left, behind all its rows.
pub proof fn law_command_compactions_are_told(args: Seq<char>, execution: SessionCommandExecution)
    ensures
        ({
            let events = command_events(args, execution);
            let n = items_view(execution.messages@).len() as int;
            &&& forall|i: int| 0 <= i < n ==> (#[trigger] events[i]) == EventView::CustomMessage(
                items_view(execution.messages@)[i],
            )
            &&& execution.compaction matches Some((outcome, entry)) ==> events.len() == n + 2
                && events[n] == (EventView::CompactionStart {
                event: start_json("manual"@, instructions(args)),
            }) && events[n + 1] == (EventView::Compaction {
                entry: entry@,
                event: end_of(outcome@, instructions(args)),
            })
            &&& execution.compaction is None ==> events.len() == n
        }),
        args.len() > 0 ==> instructions(args) == Some(args),
        args.len() == 0 ==> instructions(args) is None,
{
}

/// A command that ran is told as it went, and one that could not run is told as a row of
/// its own, fails with the very error, and runs nothing else.
pub proof fn law_unrun_commands_fail(
    result: SessionCommandExecution,
    execution: Result<SessionCommandExecution, String>,
)
    requires
        is_executed(result, execution),
    ensures
        execution matches Ok(ran) ==> result == ran,
        execution matches Err(error) ==> opt_text(result.error) == Some(error@)
            && result.continuation_prompt is None && result.compaction is None && items_view(
            result.messages@,
        ).len() == 1,
{
}

/// A store is upgraded exactly where it is windowed, and holds its full history then; a
/// store that holds it already is left as it is.
pub proof fn law_windowed_stores_are_upgraded(
    before: StoreView,
    after: StoreView,
    did: bool,
    full: StoreView,
)
    requires
        SessionFile::is_ensured(before, after, did, full),
    ensures
        did <==> before.window is Some,
        after.window is None,
        !did ==> after == before,
        did ==> after == upgraded(before, full),
{
}

/// A parse is installed only in the window it was started for; in any other store it is
/// dropped, and nothing changes.
pub proof fn law_parses_are_installed_in_their_window(
    before: StoreView,
    after: StoreView,
    installed: bool,
    full: StoreView,
    generation: u64,
)
    requires
        SessionFile::is_finished(before, after, installed, full, generation),
    ensures
        installed <==> (before.window matches Some(window) && window.generation == generation),
        installed ==> after == upgraded(before, full) && after.window is None,
        !installed ==> after == before,
{
}

/// An upgrade parses the store's own file for the window it has, and there is none where
/// the store has no window.
pub proof fn law_upgrades_parse_the_file(store: StoreView, result: Option<(String, u64)>)
    requires
        SessionFile::is_upgrade(store, result),
    ensures
        result is Some <==> store.window is Some,
        result matches Some((path, generation)) ==> path@ == store.path && generation
            == store.window->0.generation,
{
}

} // verus!
