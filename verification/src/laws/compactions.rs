//! Laws of compactions and what is told of them.
use vstd::prelude::*;

use crate::auto_compaction::{outcome_events, CompactOutcome};
use crate::compaction::{
    boundary_of, end_json, end_of, entry_fields, first_message_id, is_settle_look, outcome_row,
    result_json, start_json, CompactionManager, CompactionReason, SETTLE_POLL_MS, SettleStep,
};
use crate::engine::{EventView, OutcomeView};
use crate::json::{group_members, JsonView};
use crate::session_window::EntryView;

verus! {

/// A compaction is told by its reason and the instructions it was given; its end
/// tells its result, whether it was aborted, and why it failed, and only those.
pub proof fn law_compactions_are_told(
    reason: Seq<char>,
    instructions: Option<Seq<char>>,
    result: Option<JsonView>,
    aborted: bool,
    error: Option<Seq<char>>,
    severity: Option<Seq<char>>,
)
    ensures
        ({
            let start = start_json(reason, instructions);
            let end = end_json(reason, result, aborted, error, severity, instructions);
            &&& start.carries("type"@, JsonView::Str("compaction_start"@))
            &&& start.carries("reason"@, JsonView::Str(reason))
            &&& instructions is Some ==> start.carries(
                "customInstructions"@,
                JsonView::Str(instructions->0),
            ) && end.carries("customInstructions"@, JsonView::Str(instructions->0))
            &&& end.carries("type"@, JsonView::Str("compaction_end"@))
            &&& end.carries("reason"@, JsonView::Str(reason))
            &&& end.carries("aborted"@, JsonView::Bool(aborted))
            &&& end.carries("willRetry"@, JsonView::Bool(false))
            &&& result is Some ==> end.carries("result"@, result->0)
            &&& error is Some ==> end.carries("errorMessage"@, JsonView::Str(error->0))
            &&& severity is Some ==> end.carries("errorSeverity"@, JsonView::Str(severity->0))
        }),
        CompactionReason::Threshold.text() == "threshold"@,
        CompactionReason::Requested.text() == "requested"@,
{
    broadcast use group_members;

}

proof fn lemma_end_members(
    reason: Seq<char>,
    result: Option<JsonView>,
    aborted: bool,
    error: Option<Seq<char>>,
    severity: Option<Seq<char>>,
    instructions: Option<Seq<char>>,
    value: JsonView,
)
    ensures
        end_json(reason, result, aborted, error, severity, instructions).carries("result"@, value)
            <==> result == Some(value),
        end_json(reason, result, aborted, error, severity, instructions).carries(
            "errorMessage"@,
            value,
        ) <==> error is Some && value == JsonView::Str(error->0),
        end_json(reason, result, aborted, error, severity, instructions).carries("aborted"@, value)
            <==> value == JsonView::Bool(aborted),
{
    broadcast use group_members;

    reveal_strlit("type");
    reveal_strlit("reason");
    reveal_strlit("result");
    reveal_strlit("aborted");
    reveal_strlit("errorMessage");
    reveal_strlit("errorSeverity");
    reveal_strlit("willRetry");
    reveal_strlit("customInstructions");
    assert("type"@.len() == 4);
    assert("reason"@.len() == 6 && "reason"@[2] == 'a');
    assert("result"@.len() == 6 && "result"@[2] == 's');
    assert("aborted"@.len() == 7);
    assert("errorMessage"@.len() == 12);
    assert("errorSeverity"@.len() == 13);
    assert("willRetry"@.len() == 9);
    assert("customInstructions"@.len() == 18);
}

/// A compaction ends as it went: only one that ran shows a result, and its own;
/// only an aborted one is shown as aborted; a failure shows its error and a skip
/// its message.
pub proof fn law_compactions_end_as_they_went(
    outcome: OutcomeView,
    instructions: Option<Seq<char>>,
    value: JsonView,
)
    ensures
        ({
            let end = end_of(outcome, instructions);
            &&& end.carries("result"@, value) <==> (outcome matches OutcomeView::Compacted {
                result,
                ..
            } && result == value)
            &&& end.carries("aborted"@, JsonView::Bool(outcome is Aborted))
            &&& end.carries("aborted"@, value) ==> value == JsonView::Bool(outcome is Aborted)
            &&& end.carries("errorMessage"@, value) <==> (outcome matches OutcomeView::Failed {
                error,
            } && value == JsonView::Str("Compaction failed: "@ + error)) || (
            outcome matches OutcomeView::Skipped { message } && value == JsonView::Str(message))
            &&& outcome is Skipped ==> end.carries("errorSeverity"@, JsonView::Str("warning"@))
            &&& outcome is Failed || outcome is Aborted ==> end.carries(
                "errorSeverity"@,
                JsonView::Str("error"@),
            )
            &&& end.carries("reason"@, JsonView::Str("manual"@))
        }),
{
    broadcast use group_members;

    match outcome {
        OutcomeView::Compacted { result, .. } => {
            lemma_end_members("manual"@, Some(result), false, None, None, instructions, value);
        },
        OutcomeView::Skipped { message } => {
            lemma_end_members(
                "manual"@,
                None,
                false,
                Some(message),
                Some("warning"@),
                instructions,
                value,
            );
        },
        OutcomeView::Failed { error } => {
            lemma_end_members(
                "manual"@,
                None,
                false,
                Some("Compaction failed: "@ + error),
                Some("error"@),
                instructions,
                value,
            );
        },
        OutcomeView::Aborted => {
            lemma_end_members("manual"@, None, true, None, Some("error"@), instructions, value);
        },
    }
}

/// A compaction's result is its summary, its boundary and what was there before.
pub proof fn law_compaction_results_are_whole(
    summary: Seq<char>,
    first_kept: Seq<char>,
    tokens: u64,
)
    ensures
        result_json(summary, first_kept, tokens).carries("summary"@, JsonView::Str(summary)),
        result_json(summary, first_kept, tokens).carries(
            "firstKeptEntryId"@,
            JsonView::Str(first_kept),
        ),
        result_json(summary, first_kept, tokens).carries("tokensBefore"@, JsonView::uint(tokens)),
{
    broadcast use group_members;

}

/// The entry that a compaction leaves keeps the summary that the run gave, the
/// boundary, the instructions and the usage.
pub proof fn law_compaction_entries_keep_the_run(
    result: JsonView,
    usage: Option<JsonView>,
    first_kept: Seq<char>,
    instructions: Option<Seq<char>>,
)
    ensures
        ({
            let entry = entry_fields(result, usage, first_kept, instructions);
            &&& result.get("summary"@) matches Some(summary) ==> entry.carries("summary"@, summary)
            &&& result.get("tokensBefore"@) matches Some(tokens) ==> entry.carries(
                "tokensBefore"@,
                tokens,
            )
            &&& result.get("tokensBefore"@) is None ==> entry.carries(
                "tokensBefore"@,
                JsonView::uint(0),
            )
            &&& result.get("details"@) matches Some(details) ==> entry.carries("details"@, details)
            &&& entry.carries("firstKeptEntryId"@, JsonView::Str(first_kept))
            &&& entry.carries("fromHook"@, JsonView::Bool(false))
            &&& usage is Some ==> entry.carries("usage"@, usage->0)
            &&& instructions is Some ==> entry.carries(
                "customInstructions"@,
                JsonView::Str(instructions->0),
            )
        }),
{
    broadcast use group_members;

}

/// A compaction keeps from the durable cut where there is one, else from where the
/// run said; a run that said nothing keeps from the branch's first message.
pub proof fn law_compactions_keep_from_the_cut(
    reported: Seq<char>,
    branch: Seq<EntryView>,
    cut: Seq<char>,
)
    ensures
        reported.len() > 0 ==> boundary_of(reported, branch, Some(cut)) == cut && boundary_of(
            reported,
            branch,
            None,
        ) == reported,
        first_message_id(branch) matches Some(id) ==> exists|i: int|
            0 <= i < branch.len() && (#[trigger] branch[i]).type_ == "message"@ && branch[i].id
                == id && forall|j: int|
                0 <= j < i ==> (#[trigger] branch[j]).type_ != "message"@,
        first_message_id(branch) is None ==> forall|i: int|
            0 <= i < branch.len() ==> (#[trigger] branch[i]).type_ != "message"@,
        reported.len() == 0 && first_message_id(branch) is Some ==> boundary_of(
            reported,
            branch,
            Some(cut),
        ) == first_message_id(branch)->0 && boundary_of(reported, branch, None)
            == first_message_id(branch)->0,
    decreases branch.len(),
{
    if branch.len() > 0 && branch[0].type_ != "message"@ {
        let rest = branch.drop_first();
        law_compactions_keep_from_the_cut(reported, rest, cut);
        match first_message_id(rest) {
            Some(id) => {
                let i = choose|i: int|
                    0 <= i < rest.len() && (#[trigger] rest[i]).type_ == "message"@ && rest[i].id
                        == id && forall|j: int|
                        0 <= j < i ==> (#[trigger] rest[j]).type_ != "message"@;
                assert(branch[i + 1] == rest[i]);
                assert forall|j: int| 0 <= j < i + 1 implies (#[trigger] branch[j]).type_
                    != "message"@ by {
                    if j > 0 {
                        assert(rest[j - 1] == branch[j]);
                    }
                }
            },
            None => {
                assert forall|i: int| 0 <= i < branch.len() implies (#[trigger] branch[i]).type_
                    != "message"@ by {
                    if i > 0 {
                        assert(rest[i - 1] == branch[i]);
                    }
                }
            },
        }
    }
}

/// A compaction that the engine ran by itself is told with the entry it left and the
/// summary it made; one that did nothing leaves no entry, and its row and its end
/// both say why.
pub proof fn law_engine_compactions_are_told(
    reason: CompactionReason,
    prefix: Seq<char>,
    severity: Option<Seq<char>>,
    outcome: CompactOutcome,
)
    ensures
        ({
            let events = outcome_events(reason, prefix, severity, outcome);
            &&& outcome matches CompactOutcome::Ran {
                summary,
                first_kept_entry_id,
                tokens_before,
                entry,
            } ==> events.len() == 1 && (events[0] matches EventView::Compaction {
                entry: left,
                event,
            } && left == entry@ && event.carries(
                "result"@,
                result_json(summary@, first_kept_entry_id@, tokens_before),
            ) && event.carries("reason"@, JsonView::Str(reason.text())))
            &&& outcome matches CompactOutcome::Failed(error) ==> events.len() == 2 && events[0]
                == EventView::CustomMessage(
                outcome_row(reason.text(), "failed"@, prefix + " failed: "@ + error@),
            ) && (events[1] matches EventView::Compaction { entry: left, event } && left
                == JsonView::Null && event.carries(
                "errorMessage"@,
                JsonView::Str(prefix + " failed: "@ + error@),
            ))
            &&& outcome matches CompactOutcome::Skipped(message) ==> events.len() == 2 && events[0]
                == EventView::CustomMessage(
                outcome_row(reason.text(), "skipped"@, prefix + " skipped: "@ + message@),
            ) && (events[1] matches EventView::Compaction { entry: left, event } && left
                == JsonView::Null && event.carries(
                "errorMessage"@,
                JsonView::Str(prefix + " skipped: "@ + message@),
            ) && event.carries("errorSeverity"@, JsonView::Str("warning"@)))
        }),
{
    broadcast use group_members;

}

/// The row of a compaction that did nothing says why, and is shown.
pub proof fn law_outcome_rows_say_why(reason: Seq<char>, outcome: Seq<char>, message: Seq<char>)
    ensures
        outcome_row(reason, outcome, message).carries("content"@, JsonView::Str(message)),
        outcome_row(reason, outcome, message).carries("display"@, JsonView::Bool(true)),
        outcome_row(reason, outcome, message).carries("role"@, JsonView::Str("custom"@)),
        outcome_row(reason, outcome, message).carries(
            "customType"@,
            JsonView::Str("compaction_outcome"@),
        ),
        outcome_row(reason, outcome, message).carries(
            "details"@,
            JsonView::object().field("reason"@, JsonView::Str(reason)).field(
                "outcome"@,
                JsonView::Str(outcome),
            ),
        ),
{
    broadcast use group_members;

}

/// A session compacts exactly from the start of a run to its end, and whether it
/// does so by itself is not touched.
pub proof fn law_sessions_compact_while_a_run_lasts(manager: CompactionManager, run: u64)
    ensures
        manager.begun(run).compacting && manager.begun(run).live == Some(run),
        !manager.finished(run).compacting,
        manager.begun(run).auto_compaction_enabled == manager.auto_compaction_enabled,
        manager.finished(run).auto_compaction_enabled == manager.auto_compaction_enabled,
        manager.live != Some(run) ==> manager.finished(run).live == manager.live,
{
}

/// A compaction goes on exactly where no turn runs; a turn that runs is asked to abort
/// and waited for, and an abort that was asked for stays so.
pub proof fn law_compactions_wait_for_the_turn(
    step: SettleStep,
    busy: bool,
    before: bool,
    after: bool,
)
    requires
        is_settle_look(step, busy, before, after),
    ensures
        step == SettleStep::Proceed <==> !busy,
        step matches SettleStep::Wait { ms } ==> 0 < ms <= SETTLE_POLL_MS,
        after <==> before || busy,
{
}

} // verus!
