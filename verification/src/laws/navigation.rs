//! Laws of moves over a session's tree and of forks.
use vstd::prelude::*;

use crate::agent_engine::BranchView;
use crate::branch_navigation::{
    block_texts, custom_text, dir_of_fork, fork_answer, fork_start, forking_answer, is_fork_plan,
    label_answer, landing, move_begun, move_step, tree_answer, ForkPlan, MoveActionView,
    MoveEventView, MoveStageView, MoveView, STILL_INITIALIZING, TreeFacts,
};
use crate::json::{group_members, or_empty, Json, JsonView};
use crate::paths::parent_of;
use crate::protocol::failure;
use crate::session_window::EntryView;
use crate::text::opt_text;

verus! {

/// What was summarized is what is kept: a completed summary is appended with
/// exactly its text, its details and its usage, at the place the navigation lands
/// on; and nothing else is ever appended as a summary.
pub proof fn law_summaries_are_appended_whole(
    state: MoveView,
    summary: Seq<char>,
    usage: Option<JsonView>,
    details: Option<JsonView>,
    event: MoveEventView,
)
    ensures
        state.stage == MoveStageView::Summarizing ==> (move_step(
            state,
            MoveEventView::Summarized(BranchView::Complete { summary, usage, details }),
        ).1 matches MoveActionView::AppendSummary {
            new_leaf,
            summary: kept,
            details: kept_details,
            usage: kept_usage,
        } && new_leaf == state.new_leaf && kept == summary && kept_details == details && kept_usage
            == usage),
        move_step(state, event).1 matches MoveActionView::AppendSummary {
            summary: kept,
            details: kept_details,
            usage: kept_usage,
            ..
        } ==> event == MoveEventView::Summarized(
            BranchView::Complete { summary: kept, usage: kept_usage, details: kept_details },
        ),
{
}

/// A failed step is answered with its own error, and an aborted summary as such.
pub proof fn law_failed_moves_tell_their_error(state: MoveView, error: Seq<char>)
    ensures
        ({
            let refused = MoveActionView::Answer(failure(None, "navigate_tree"@, error));
            let closed = MoveActionView::Answer(
                failure(None, "navigate_tree"@, STILL_INITIALIZING@),
            );
            &&& state.stage == MoveStageView::Summarizing ==> move_step(
                state,
                MoveEventView::Summarized(BranchView::Failed { error }),
            ).1 == refused
            &&& state.stage == MoveStageView::AppendingSummary ==> move_step(
                state,
                MoveEventView::Appended(Err(error)),
            ).1 == refused
            &&& state.stage is LabelingSummary || state.stage == MoveStageView::LabelingTarget
                ==> move_step(state, MoveEventView::Labeled(Some(error))).1 == refused
            &&& state.stage == MoveStageView::Branching ==> move_step(
                state,
                MoveEventView::Moved(Some(error)),
            ).1 == refused
            &&& state.stage is Rebuilding ==> move_step(
                state,
                MoveEventView::Rebuilt(Some(error)),
            ).1 == refused
            &&& state.stage == MoveStageView::Branching || state.stage
                == MoveStageView::AppendingSummary ==> move_step(state, MoveEventView::NoStore).1
                == closed
            &&& state.stage == MoveStageView::Summarizing ==> (move_step(
                state,
                MoveEventView::Summarized(BranchView::Aborted),
            ).1 matches MoveActionView::Answer(answer) && answer.success && answer.data is Some
                && answer.data->0.carries("cancelled"@, JsonView::Bool(true))
                && answer.data->0.carries("aborted"@, JsonView::Bool(true)))
        }),
{
    broadcast use group_members;

}

/// A navigation that summarizes and whose every step succeeds collects the branch,
/// summarizes it by the instructions it was given, appends the summary, labels
/// that summary, reads it back, has the engine take the branch up, and answers
/// with the summary's entry and the text for the input.
pub proof fn law_summarized_moves_go_through(
    state: MoveView,
    summary: Seq<char>,
    usage: Option<JsonView>,
    details: Option<JsonView>,
    summary_id: Seq<char>,
    entry: Option<JsonView>,
)
    requires
        state.stage == MoveStageView::Settling,
        state.summarize,
    ensures
        ({
            let settled = move_step(state, MoveEventView::Settled);
            let collected = move_step(settled.0, MoveEventView::Collected { any: true });
            let summarized = move_step(
                collected.0,
                MoveEventView::Summarized(BranchView::Complete { summary, usage, details }),
            );
            let appended = move_step(summarized.0, MoveEventView::Appended(Ok(summary_id)));
            let labeled = if state.label is Some {
                move_step(appended.0, MoveEventView::Labeled(None))
            } else {
                appended
            };
            let read = move_step(labeled.0, MoveEventView::Read(entry));
            let rebuilt = move_step(read.0, MoveEventView::Rebuilt(None));
            &&& settled.1 == MoveActionView::CollectEntries
            &&& collected.1 == (MoveActionView::RunSummary {
                custom_instructions: state.custom_instructions,
                replace_instructions: state.replace_instructions,
            })
            &&& state.label matches Some(label) ==> appended.1 == (MoveActionView::AppendLabel {
                entry_id: summary_id,
                label,
            })
            &&& labeled.1 == (MoveActionView::ReadEntry { entry_id: summary_id })
            &&& read.1 == MoveActionView::RebuildContext
            &&& rebuilt.1 matches MoveActionView::Answer(answer)
            &&& answer.success && answer.data is Some
            &&& answer.data->0.carries("cancelled"@, JsonView::Bool(false))
            &&& entry is Some ==> answer.data->0.carries("summaryEntry"@, entry->0)
            &&& state.editor_text is Some ==> answer.data->0.carries(
                "editorText"@,
                JsonView::Str(state.editor_text->0),
            )
            &&& rebuilt.0.stage == MoveStageView::Answered
        }),
{
    broadcast use group_members;

}

/// A navigation that does not summarize, or leaves nothing to summarize, moves the
/// leaf, labels its target, has the engine take the branch up, and answers with
/// the text for the input.
pub proof fn law_plain_moves_go_through(state: MoveView)
    requires
        state.stage == MoveStageView::Settling && !state.summarize || state.stage
            == MoveStageView::Collecting,
    ensures
        ({
            let begun = if state.stage == MoveStageView::Settling {
                move_step(state, MoveEventView::Settled)
            } else {
                move_step(state, MoveEventView::Collected { any: false })
            };
            let moved = move_step(begun.0, MoveEventView::Moved(None));
            let labeled = if state.label is Some {
                move_step(moved.0, MoveEventView::Labeled(None))
            } else {
                moved
            };
            let rebuilt = move_step(labeled.0, MoveEventView::Rebuilt(None));
            &&& begun.1 == (MoveActionView::BranchTo { new_leaf: state.new_leaf })
            &&& state.label matches Some(label) ==> moved.1 == (MoveActionView::AppendLabel {
                entry_id: state.target_id,
                label,
            })
            &&& labeled.1 == MoveActionView::RebuildContext
            &&& rebuilt.1 matches MoveActionView::Answer(answer)
            &&& answer.success && answer.data is Some
            &&& answer.data->0.carries("cancelled"@, JsonView::Bool(false))
            &&& forall|value: JsonView|
                !#[trigger] answer.data->0.carries("summaryEntry"@, value)
            &&& state.editor_text is Some ==> answer.data->0.carries(
                "editorText"@,
                JsonView::Str(state.editor_text->0),
            )
        }),
{
    broadcast use group_members;

    reveal_strlit("summaryEntry");
    reveal_strlit("cancelled");
    reveal_strlit("editorText");
    assert("summaryEntry"@.len() != "cancelled"@.len());
    assert("summaryEntry"@.len() != "editorText"@.len());
}

/// A label goes to the summary where one was appended and to the target where not,
/// and it is the label that was asked for.
pub proof fn law_labels_go_where_asked(state: MoveView, event: MoveEventView)
    ensures
        move_step(state, event).1 matches MoveActionView::AppendLabel { entry_id, label } ==> Some(
            label,
        ) == state.label && (event == MoveEventView::Appended(Ok(entry_id)) || (event
            == MoveEventView::Moved(None) && entry_id == state.target_id)),
        move_step(state, event).1 matches MoveActionView::ReadEntry { entry_id } ==> event
            == MoveEventView::Appended(Ok(entry_id)) || state.stage == (
        MoveStageView::LabelingSummary { summary_id: entry_id }),
        move_step(state, event).1 is RunSummary ==> event == (MoveEventView::Collected {
            any: true,
        }),
        move_step(state, event).1 is CollectEntries ==> state.summarize,
{
}

/// A navigation begins only to an entry that is there and is not the leaf already,
/// and then as it was asked for; any other is answered at once and moves nothing.
pub proof fn law_moves_begin_as_asked(payload: JsonView, facts: Option<TreeFacts>)
    ensures
        ({
            let (state, action) = move_begun(payload, facts);
            let target = or_empty(payload.get_str("targetId"@));
            &&& facts is None ==> state is None && action == MoveActionView::Answer(
                failure(None, "navigate_tree"@, STILL_INITIALIZING@),
            )
            &&& facts is Some && facts->0.target is None ==> state is None && action
                == MoveActionView::Answer(
                failure(None, "navigate_tree"@, "Entry "@ + target + " not found"@),
            )
            &&& facts is Some && facts->0.target is Some && opt_text(facts->0.leaf_id) == Some(
                target,
            ) ==> state is None && (action matches MoveActionView::Answer(answer)
                && answer.success)
            &&& state is Some <==> facts is Some && facts->0.target is Some && opt_text(
                facts->0.leaf_id,
            ) != Some(target)
            &&& state matches Some(state) ==> {
                &&& action == MoveActionView::SettleTurn
                &&& state.target_id == target
                &&& state.summarize <==> payload.get_bool("summarize"@) == Some(true)
                &&& state.replace_instructions <==> payload.get_bool("replaceInstructions"@)
                    == Some(true)
                &&& state.custom_instructions == payload.get_str("customInstructions"@)
                &&& state.label == payload.get_str("label"@)
                &&& (state.new_leaf, state.editor_text) == landing(
                    facts->0.target->0@,
                    opt_text(facts->0.user_text),
                )
            }
        }),
{
}

/// A message that goes back to the input is left for its parent, and any other
/// entry becomes the leaf itself with nothing for the input.
pub proof fn law_edited_messages_are_left(target: EntryView, user_text: Option<Seq<char>>)
    ensures
        user_text is Some ==> landing(target, user_text) == (target.parent_id, user_text),
        user_text is None && target.type_ == "custom_message"@ ==> landing(target, user_text) == (
            target.parent_id,
            custom_text(target.fields),
        ),
        user_text is None && target.type_ != "custom_message"@ ==> landing(target, user_text) == (
            Some(target.id),
            None::<Seq<char>>,
        ),
{
}

/// The text of a message with blocks is all its text blocks in order: a text block
/// adds its text at the end, and any other block adds nothing.
pub proof fn law_text_blocks_are_put_together(blocks: Seq<JsonView>, block: JsonView)
    ensures
        block.get_str("type"@) == Some("text"@) ==> block_texts(blocks.push(block)) == block_texts(
            blocks,
        ) + or_empty(block.get_str("text"@)),
        block.get_str("type"@) != Some("text"@) ==> block_texts(blocks.push(block)) == block_texts(
            blocks,
        ),
        block_texts(Seq::empty()).len() == 0,
{
    assert(blocks.push(block).drop_last() =~= blocks);
    assert(block_texts(blocks) + Seq::<char>::empty() =~= block_texts(blocks));
}

/// The text of a custom message is its content where that is a text, and is none
/// where its blocks hold no text.
pub proof fn law_custom_messages_give_their_text(fields: JsonView)
    ensures
        fields.get("content"@) matches Some(JsonView::Str(text)) ==> custom_text(fields) == Some(
            text,
        ),
        fields.get("content"@) matches Some(JsonView::Array(blocks)) ==> (custom_text(fields)
            matches Some(text) ==> text == block_texts(blocks) && text.len() > 0) && (custom_text(
            fields,
        ) is None ==> block_texts(blocks).len() == 0),
        fields.get("content"@) is None ==> custom_text(fields) is None,
{
}

/// A fork at an entry takes the path to it and gives no text back; a fork before
/// one takes the path to its parent and gives the message's text back, and is
/// refused where the entry is no user message. No fork starts without its entry.
pub proof fn law_forks_start_where_asked(payload: JsonView, facts: TreeFacts)
    ensures
        fork_start(payload, None) == Err::<(Option<Seq<char>>, Option<Seq<char>>), Seq<char>>(
            STILL_INITIALIZING@,
        ),
        facts.target is None ==> fork_start(payload, Some(facts)) is Err,
        fork_start(payload, Some(facts)) matches Ok((leaf, text)) ==> facts.target is Some && (
        payload.get_str("position"@) == Some("at"@) ==> leaf == Some(
            or_empty(payload.get_str("entryId"@)),
        ) && text is None) && (payload.get_str("position"@) != Some("at"@) ==> leaf
            == facts.target->0@.parent_id && text == opt_text(facts.user_text) && text is Some),
        facts.target is Some && (payload.get_str("position"@) == Some("at"@) || facts.user_text
            is Some) ==> fork_start(payload, Some(facts)) is Ok,
        fork_start(payload, Some(facts)) matches Err(error) ==> error
            == "Invalid entry ID for forking"@,
{
}

/// A tree is answered with all its nodes and its leaf, and its messages with all of them;
/// while the store is not open both are refused.
pub proof fn law_trees_are_answered_whole(
    nodes: Option<Json>,
    leaf_id: Option<Seq<char>>,
    messages: Option<Json>,
)
    ensures
        tree_answer(nodes, leaf_id).success <==> nodes is Some,
        tree_answer(nodes, leaf_id).command == "get_session_tree"@,
        nodes matches Some(nodes) ==> tree_answer(Some(nodes), leaf_id).data->0.carries(
            "flatNodes"@,
            nodes@,
        ),
        nodes is Some ==> (leaf_id matches Some(leaf) ==> tree_answer(nodes, leaf_id).data->0.carries(
            "leafId"@,
            JsonView::Str(leaf),
        )),
        nodes is Some && leaf_id is None ==> tree_answer(nodes, leaf_id).data->0.carries(
            "leafId"@,
            JsonView::Null,
        ),
        forking_answer(messages).success <==> messages is Some,
        messages matches Some(found) ==> forking_answer(messages).data->0.carries(
            "messages"@,
            found@,
        ),
{
    broadcast use group_members;

}

/// A fork that went well says that it was not cancelled and gives the selected text back
/// as it is; one that failed says why.
pub proof fn law_forks_give_the_text_back(
    outcome: Result<(), String>,
    selected_text: Option<Seq<char>>,
)
    ensures
        fork_answer(outcome, selected_text).success <==> outcome is Ok,
        outcome matches Err(error) ==> fork_answer(outcome, selected_text).error == Some(error@),
        outcome is Ok ==> fork_answer(outcome, selected_text).data->0.carries(
            "cancelled"@,
            JsonView::Bool(false),
        ),
        outcome is Ok ==> (selected_text matches Some(text) ==> fork_answer(
            outcome,
            selected_text,
        ).data->0.carries("selectedText"@, JsonView::Str(text))),
{
    broadcast use group_members;

}

/// A fork without a leaf is a fresh session below its source and as deep; one with a leaf
/// goes by exactly that leaf, and is kept in a file exactly where its source is.
pub proof fn law_forks_are_kept_like_their_source(
    plan: ForkPlan,
    target_leaf: Option<Seq<char>>,
    store_path: Seq<char>,
    rlm_depth: Option<u64>,
)
    requires
        is_fork_plan(plan, target_leaf, store_path, rlm_depth),
    ensures
        plan is Fresh <==> target_leaf is None,
        plan is InFile <==> target_leaf is Some && store_path.len() > 0,
        plan is InMemory <==> target_leaf is Some && store_path.len() == 0,
        plan matches ForkPlan::InFile { leaf_id } ==> target_leaf == Some(leaf_id@),
        plan matches ForkPlan::InMemory { leaf_id } ==> target_leaf == Some(leaf_id@),
        plan matches ForkPlan::Fresh { parent_session, rlm_depth: depth, in_file } ==> (
        parent_session@ == store_path && in_file == (store_path.len() > 0) && (rlm_depth is None
            ==> depth == 0) && (rlm_depth matches Some(source) ==> (source <= u32::MAX ==> depth
            == source))),
{
}

/// A label change is answered as it went: well exactly where its entry was appended, and
/// with the very error where that failed.
pub proof fn law_label_changes_are_answered(appended: Option<Result<(), String>>)
    ensures
        label_answer(appended).success <==> appended is Some && appended->0 is Ok,
        appended matches Some(Err(error)) ==> label_answer(appended).error == Some(error@),
        label_answer(appended).command == "set_session_entry_label"@,
{
}

/// A fork is written beside its source's file.
pub proof fn law_forks_lie_beside_their_source(store_path: Seq<char>)
    ensures
        parent_of(store_path) matches Some(dir) ==> dir_of_fork(store_path) == dir,
        parent_of(store_path) is None ==> dir_of_fork(store_path) == store_path,
{
}

} // verus!
