//! Moves over a session's tree: where a navigation lands, how it goes step by
//! step, and where a fork starts.
use vstd::prelude::*;

use crate::agent_engine::{BranchSummaryOutcome, BranchView};
use crate::json::{items_view, lemma_items_view, opt_view, or_empty, or_null, Json, JsonView};
use crate::protocol::{
    failure, opt_string, response_failure, response_success, success, DaemonResponse, ResponseView,
};
use crate::paths::{parent, parent_of};
use crate::session_window::{EntryView, SessionEntry};
use crate::text::{as_opt_str, copy_opt, is_empty_text, is_text, opt_str, opt_text, same_text};

verus! {

/// The error of a command that comes before the session's store is open.
pub const STILL_INITIALIZING: &'static str = "Session is still initializing";

/// The branch summary that an abort goes to: each run replaces the one before.
#[derive(Debug, Clone, Copy, PartialEq, Eq, Structural)]
pub struct TreeNavigation {
    pub live: Option<u64>,
}

impl TreeNavigation {
    /// No summary runs.
    pub fn new() -> (r: TreeNavigation)
        ensures
            r.live is None,
    {
        TreeNavigation { live: None }
    }

    /// The run that an abort goes to, where one runs.
    pub fn abort(&self) -> (r: Option<u64>)
        ensures
            r == self.live,
    {
        self.live
    }

    /// A run begins: it takes the slot.
    pub fn begin(&mut self, run: u64)
        ensures
            final(self).live == Some(run),
    {
        self.live = Some(run);
    }

    /// A run ended: the slot is cleared only where it is still this run's.
    pub fn finish(&mut self, run: u64)
        ensures
            final(self).live == if old(self).live == Some(run) {
                None
            } else {
                old(self).live
            },
    {
        if self.live == Some(run) {
            self.live = None;
        }
    }
}

/// The text of an optional value as a member that is null without one.
pub open spec fn text_or_null(text: Option<Seq<char>>) -> JsonView {
    or_null(opt_string(text))
}

fn text_or_null_value(text: Option<&str>) -> (r: Json)
    ensures
        r@ == text_or_null(opt_str(text)),
{
    match text {
        Some(text) => Json::string(text),
        None => Json::Null,
    }
}

/// The answer with a session's tree.
pub open spec fn tree_answer(flat_nodes: Option<Json>, leaf_id: Option<Seq<char>>) -> ResponseView {
    match flat_nodes {
        Some(nodes) => success(
            None,
            "get_session_tree"@,
            Some(
                JsonView::object().field("flatNodes"@, nodes@).field(
                    "leafId"@,
                    text_or_null(leaf_id),
                ),
            ),
        ),
        None => failure(None, "get_session_tree"@, STILL_INITIALIZING@),
    }
}

/// The answer with a session's tree: every entry in file order, and the leaf.
/// The nodes are none while the store is not open.
pub fn get_session_tree(flat_nodes: Option<Json>, leaf_id: Option<&str>) -> (r: DaemonResponse)
    ensures
        r@ == tree_answer(flat_nodes, opt_str(leaf_id)),
{
    match flat_nodes {
        Some(nodes) => response_success(
            None,
            "get_session_tree",
            Some(
                Json::object().field("flatNodes", nodes).field(
                    "leafId",
                    text_or_null_value(leaf_id),
                ),
            ),
        ),
        None => response_failure(None, "get_session_tree", STILL_INITIALIZING, None),
    }
}

/// The answer with the user messages that a fork can start from.
pub open spec fn forking_answer(messages: Option<Json>) -> ResponseView {
    match messages {
        Some(messages) => success(
            None,
            "get_user_messages_for_forking"@,
            Some(JsonView::object().field("messages"@, messages@)),
        ),
        None => failure(None, "get_user_messages_for_forking"@, STILL_INITIALIZING@),
    }
}

/// The answer with the user messages that a fork can start from. The messages
/// are none while the store is not open.
pub fn get_user_messages_for_forking(messages: Option<Json>) -> (r: DaemonResponse)
    ensures
        r@ == forking_answer(messages),
{
    match messages {
        Some(messages) => response_success(
            None,
            "get_user_messages_for_forking",
            Some(Json::object().field("messages", messages)),
        ),
        None => response_failure(None, "get_user_messages_for_forking", STILL_INITIALIZING, None),
    }
}

/// The entry and the label of a label change.
pub fn label_change(payload: &Json) -> (r: (String, Option<String>))
    ensures
        r.0@ == or_empty(payload@.get_str("entryId"@)),
        opt_text(r.1) == payload@.get_str("label"@),
{
    (payload.get_string_or_empty("entryId"), payload.get_string("label"))
}

/// The answer to a label change.
pub open spec fn label_answer(appended: Option<Result<(), String>>) -> ResponseView {
    match appended {
        Some(Ok(_)) => success(None, "set_session_entry_label"@, None),
        Some(Err(error)) => failure(None, "set_session_entry_label"@, error@),
        None => failure(None, "set_session_entry_label"@, STILL_INITIALIZING@),
    }
}

/// The answer to a label change; the outcome is none while the store is not
/// open.
pub fn set_session_entry_label(appended: Option<Result<(), String>>) -> (r: DaemonResponse)
    ensures
        r@ == label_answer(appended),
{
    match appended {
        Some(Ok(_)) => response_success(None, "set_session_entry_label", None),
        Some(Err(error)) => response_failure(
            None,
            "set_session_entry_label",
            error.as_str(),
            None,
        ),
        None => response_failure(None, "set_session_entry_label", STILL_INITIALIZING, None),
    }
}

/// The texts of a message's text blocks, put together.
pub open spec fn block_texts(blocks: Seq<JsonView>) -> Seq<char>
    decreases blocks.len(),
{
    if blocks.len() == 0 {
        Seq::empty()
    } else {
        let block = blocks.last();
        block_texts(blocks.drop_last()) + if block.get_str("type"@) == Some("text"@) {
            or_empty(block.get_str("text"@))
        } else {
            Seq::empty()
        }
    }
}

/// The text of a custom message: its content where that is a text, else its
/// text blocks put together; none where there is no text.
pub open spec fn custom_text(fields: JsonView) -> Option<Seq<char>> {
    match fields.get("content"@) {
        Some(JsonView::Str(text)) => Some(text),
        Some(JsonView::Array(blocks)) => if block_texts(blocks).len() == 0 {
            None
        } else {
            Some(block_texts(blocks))
        },
        _ => None,
    }
}

/// The text of a custom message.
pub fn custom_message_text(entry: &SessionEntry) -> (r: Option<String>)
    ensures
        opt_text(r) == custom_text(entry@.fields),
{
    let content = match entry.fields.get("content") {
        Some(content) => content,
        None => {
            return None;
        },
    };
    match content.as_str() {
        Some(text) => {
            return Some(text.to_owned());
        },
        None => {},
    }
    let blocks = match content.as_array() {
        Some(blocks) => blocks,
        None => {
            return None;
        },
    };
    let ghost all = items_view(blocks@);
    proof {
        lemma_items_view(blocks@);
    }
    let mut text = String::new();
    let mut i: usize = 0;
    assert(all.take(0) =~= Seq::empty());
    while i < blocks.len()
        invariant
            i <= blocks@.len(),
            all.len() == blocks@.len(),
            forall|j: int| 0 <= j < blocks@.len() ==> #[trigger] all[j] == blocks@[j]@,
            text@ == block_texts(all.take(i as int)),
        decreases blocks@.len() - i,
    {
        assert(all.take(i + 1).drop_last() =~= all.take(i as int));
        assert(all.take(i + 1).last() == blocks@[i as int]@);
        if is_text(blocks[i].get_str("type"), "text") {
            match blocks[i].get_str("text") {
                Some(more) => {
                    text = crate::text::concat2(text.as_str(), more);
                },
                None => {},
            }
        }
        i = i + 1;
        assert(text@ =~= block_texts(all.take(i as int)));
    }
    assert(all.take(i as int) =~= all);
    if is_empty_text(text.as_str()) {
        None
    } else {
        Some(text)
    }
}

/// Where a navigation lands, and the text that goes back to the input: a user
/// message or a custom message puts the leaf at its parent and gives its text
/// back, and any other entry becomes the leaf itself.
pub open spec fn landing(target: EntryView, user_text: Option<Seq<char>>) -> (
    Option<Seq<char>>,
    Option<Seq<char>>,
) {
    if user_text is Some {
        (target.parent_id, user_text)
    } else if target.type_ == "custom_message"@ {
        (target.parent_id, custom_text(target.fields))
    } else {
        (Some(target.id), None)
    }
}

/// Where a navigation lands, and the text that goes back to the input; the text
/// of a user message is handed in.
pub fn navigation_point(target: &SessionEntry, user_text: Option<&str>) -> (r: (
    Option<String>,
    Option<String>,
))
    ensures
        (opt_text(r.0), opt_text(r.1)) == landing(target@, opt_str(user_text)),
{
    match user_text {
        Some(text) => {
            return (copy_opt(&target.parent_id), Some(text.to_owned()));
        },
        None => {},
    }
    if same_text(target.type_.as_str(), "custom_message") {
        return (copy_opt(&target.parent_id), custom_message_text(target));
    }
    (Some(target.id.clone()), None)
}

/// What is known of the tree when a navigation begins: its target, the target's
/// text where it is a user message, and the leaf.
#[derive(Debug, PartialEq, Eq)]
pub struct TreeFacts {
    pub target: Option<SessionEntry>,
    pub user_text: Option<String>,
    pub leaf_id: Option<String>,
}

/// Where a navigation is.
#[derive(Debug, PartialEq, Eq)]
pub enum MoveStage {
    /// The running turn settles.
    Settling,
    /// The entries of the branch that is left are collected.
    Collecting,
    /// They are summarized.
    Summarizing,
    /// The summary is appended.
    AppendingSummary,
    /// The summary is labeled.
    LabelingSummary { summary_id: String },
    /// The summary's entry is read back.
    ReadingSummary,
    /// The leaf moves without a summary.
    Branching,
    /// The target is labeled.
    LabelingTarget,
    /// The engine takes up the branch.
    Rebuilding { summary_entry: Option<Json> },
    Answered,
}

/// The mathematical stage behind a [`MoveStage`].
#[verifier::ext_equal]
pub enum MoveStageView {
    Settling,
    Collecting,
    Summarizing,
    AppendingSummary,
    LabelingSummary { summary_id: Seq<char> },
    ReadingSummary,
    Branching,
    LabelingTarget,
    Rebuilding { summary_entry: Option<JsonView> },
    Answered,
}

impl View for MoveStage {
    type V = MoveStageView;

    open spec fn view(&self) -> MoveStageView {
        match self {
            MoveStage::Settling => MoveStageView::Settling,
            MoveStage::Collecting => MoveStageView::Collecting,
            MoveStage::Summarizing => MoveStageView::Summarizing,
            MoveStage::AppendingSummary => MoveStageView::AppendingSummary,
            MoveStage::LabelingSummary { summary_id } => MoveStageView::LabelingSummary {
                summary_id: summary_id@,
            },
            MoveStage::ReadingSummary => MoveStageView::ReadingSummary,
            MoveStage::Branching => MoveStageView::Branching,
            MoveStage::LabelingTarget => MoveStageView::LabelingTarget,
            MoveStage::Rebuilding { summary_entry } => MoveStageView::Rebuilding {
                summary_entry: opt_view(*summary_entry),
            },
            MoveStage::Answered => MoveStageView::Answered,
        }
    }
}

/// A navigation under way.
#[derive(Debug, PartialEq, Eq)]
pub struct TreeMove {
    pub target_id: String,
    pub summarize: bool,
    pub replace_instructions: bool,
    pub custom_instructions: Option<String>,
    pub label: Option<String>,
    pub new_leaf: Option<String>,
    pub editor_text: Option<String>,
    pub stage: MoveStage,
}

/// The mathematical navigation behind a [`TreeMove`].
#[verifier::ext_equal]
pub struct MoveView {
    pub target_id: Seq<char>,
    pub summarize: bool,
    pub replace_instructions: bool,
    pub custom_instructions: Option<Seq<char>>,
    pub label: Option<Seq<char>>,
    pub new_leaf: Option<Seq<char>>,
    pub editor_text: Option<Seq<char>>,
    pub stage: MoveStageView,
}

impl View for TreeMove {
    type V = MoveView;

    open spec fn view(&self) -> MoveView {
        MoveView {
            target_id: self.target_id@,
            summarize: self.summarize,
            replace_instructions: self.replace_instructions,
            custom_instructions: opt_text(self.custom_instructions),
            label: opt_text(self.label),
            new_leaf: opt_text(self.new_leaf),
            editor_text: opt_text(self.editor_text),
            stage: self.stage@,
        }
    }
}

/// What happened to a navigation.
#[derive(Debug, PartialEq, Eq)]
pub enum MoveEvent {
    /// The running turn settled.
    Settled,
    /// The entries of the branch that is left were collected; there are some or
    /// not.
    Collected { any: bool },
    /// The summary ended.
    Summarized(BranchSummaryOutcome),
    /// The store closed meanwhile.
    NoStore,
    /// The summary was appended under an id, or could not be.
    Appended(Result<String, String>),
    /// The leaf was moved, or could not be.
    Moved(Result<(), String>),
    /// The label was appended, or could not be.
    Labeled(Result<(), String>),
    /// The summary's entry was read back.
    Read(Option<Json>),
    /// The engine took up the branch, or could not.
    Rebuilt(Result<(), String>),
}

/// The mathematical event behind a [`MoveEvent`].
#[verifier::ext_equal]
pub enum MoveEventView {
    Settled,
    Collected { any: bool },
    Summarized(BranchView),
    NoStore,
    Appended(Result<Seq<char>, Seq<char>>),
    Moved(Option<Seq<char>>),
    Labeled(Option<Seq<char>>),
    Read(Option<JsonView>),
    Rebuilt(Option<Seq<char>>),
}

/// The error of an outcome, where it has one.
pub open spec fn error_of(outcome: Result<(), String>) -> Option<Seq<char>> {
    match outcome {
        Ok(_) => None,
        Err(error) => Some(error@),
    }
}

impl View for MoveEvent {
    type V = MoveEventView;

    open spec fn view(&self) -> MoveEventView {
        match self {
            MoveEvent::Settled => MoveEventView::Settled,
            MoveEvent::Collected { any } => MoveEventView::Collected { any: *any },
            MoveEvent::Summarized(outcome) => MoveEventView::Summarized(outcome@),
            MoveEvent::NoStore => MoveEventView::NoStore,
            MoveEvent::Appended(Ok(id)) => MoveEventView::Appended(Ok(id@)),
            MoveEvent::Appended(Err(error)) => MoveEventView::Appended(Err(error@)),
            MoveEvent::Moved(outcome) => MoveEventView::Moved(error_of(*outcome)),
            MoveEvent::Labeled(outcome) => MoveEventView::Labeled(error_of(*outcome)),
            MoveEvent::Read(entry) => MoveEventView::Read(opt_view(*entry)),
            MoveEvent::Rebuilt(outcome) => MoveEventView::Rebuilt(error_of(*outcome)),
        }
    }
}

/// What is done next for a navigation.
#[derive(Debug, PartialEq, Eq)]
pub enum MoveAction {
    SettleTurn,
    CollectEntries,
    RunSummary { custom_instructions: Option<String>, replace_instructions: bool },
    AppendSummary {
        new_leaf: Option<String>,
        summary: String,
        details: Option<Json>,
        usage: Option<Json>,
    },
    AppendLabel { entry_id: String, label: String },
    ReadEntry { entry_id: String },
    BranchTo { new_leaf: Option<String> },
    RebuildContext,
    Answer(DaemonResponse),
    /// The event does not fit: nothing is done.
    Ignore,
}

/// The mathematical action behind a [`MoveAction`].
#[verifier::ext_equal]
pub enum MoveActionView {
    SettleTurn,
    CollectEntries,
    RunSummary { custom_instructions: Option<Seq<char>>, replace_instructions: bool },
    AppendSummary {
        new_leaf: Option<Seq<char>>,
        summary: Seq<char>,
        details: Option<JsonView>,
        usage: Option<JsonView>,
    },
    AppendLabel { entry_id: Seq<char>, label: Seq<char> },
    ReadEntry { entry_id: Seq<char> },
    BranchTo { new_leaf: Option<Seq<char>> },
    RebuildContext,
    Answer(ResponseView),
    Ignore,
}

impl View for MoveAction {
    type V = MoveActionView;

    open spec fn view(&self) -> MoveActionView {
        match self {
            MoveAction::SettleTurn => MoveActionView::SettleTurn,
            MoveAction::CollectEntries => MoveActionView::CollectEntries,
            MoveAction::RunSummary { custom_instructions, replace_instructions } => MoveActionView::RunSummary {
                custom_instructions: opt_text(*custom_instructions),
                replace_instructions: *replace_instructions,
            },
            MoveAction::AppendSummary { new_leaf, summary, details, usage } => MoveActionView::AppendSummary {
                new_leaf: opt_text(*new_leaf),
                summary: summary@,
                details: opt_view(*details),
                usage: opt_view(*usage),
            },
            MoveAction::AppendLabel { entry_id, label } => MoveActionView::AppendLabel {
                entry_id: entry_id@,
                label: label@,
            },
            MoveAction::ReadEntry { entry_id } => MoveActionView::ReadEntry { entry_id: entry_id@ },
            MoveAction::BranchTo { new_leaf } => MoveActionView::BranchTo {
                new_leaf: opt_text(*new_leaf),
            },
            MoveAction::RebuildContext => MoveActionView::RebuildContext,
            MoveAction::Answer(response) => MoveActionView::Answer(response@),
            MoveAction::Ignore => MoveActionView::Ignore,
        }
    }
}

/// The data of a navigation that went through.
pub open spec fn moved_json(
    editor_text: Option<Seq<char>>,
    summary_entry: Option<JsonView>,
) -> JsonView {
    JsonView::object().field("cancelled"@, JsonView::Bool(false)).field_opt(
        "editorText"@,
        opt_string(editor_text),
    ).field_opt("summaryEntry"@, summary_entry)
}

/// The data of a navigation whose summary was aborted.
pub open spec fn aborted_json() -> JsonView {
    JsonView::object().field("cancelled"@, JsonView::Bool(true)).field(
        "aborted"@,
        JsonView::Bool(true),
    )
}

/// The failure of a navigation.
pub open spec fn move_failure(error: Seq<char>) -> MoveActionView {
    MoveActionView::Answer(failure(None, "navigate_tree"@, error))
}

/// How a navigation begins: without a store or a target it is refused, at the
/// target it is over, and else the running turn settles first.
pub open spec fn move_begun(payload: JsonView, facts: Option<TreeFacts>) -> (
    Option<MoveView>,
    MoveActionView,
) {
    let target_id = or_empty(payload.get_str("targetId"@));
    match facts {
        None => (None, move_failure(STILL_INITIALIZING@)),
        Some(facts) => match facts.target {
            None => (None, move_failure("Entry "@ + target_id + " not found"@)),
            Some(target) => if opt_text(facts.leaf_id) == Some(target_id) {
                (
                    None,
                    MoveActionView::Answer(
                        success(
                            None,
                            "navigate_tree"@,
                            Some(
                                JsonView::object().field("cancelled"@, JsonView::Bool(false)),
                            ),
                        ),
                    ),
                )
            } else {
                let point = landing(target@, opt_text(facts.user_text));
                (
                    Some(
                        MoveView {
                            target_id,
                            summarize: payload.get_bool("summarize"@) == Some(true),
                            replace_instructions: payload.get_bool("replaceInstructions"@) == Some(
                                true,
                            ),
                            custom_instructions: payload.get_str("customInstructions"@),
                            label: payload.get_str("label"@),
                            new_leaf: point.0,
                            editor_text: point.1,
                            stage: MoveStageView::Settling,
                        },
                    ),
                    MoveActionView::SettleTurn,
                )
            },
        },
    }
}

/// The step that moves the leaf without a summary.
pub open spec fn branch_step(state: MoveView) -> (MoveView, MoveActionView) {
    (
        MoveView { stage: MoveStageView::Branching, ..state },
        MoveActionView::BranchTo { new_leaf: state.new_leaf },
    )
}

/// The step that has the engine take up the branch.
pub open spec fn rebuild_step(state: MoveView, summary_entry: Option<JsonView>) -> (
    MoveView,
    MoveActionView,
) {
    (
        MoveView { stage: MoveStageView::Rebuilding { summary_entry }, ..state },
        MoveActionView::RebuildContext,
    )
}

/// The next state and action of a navigation.
pub open spec fn move_step(state: MoveView, event: MoveEventView) -> (MoveView, MoveActionView) {
    let answered = MoveView { stage: MoveStageView::Answered, ..state };
    match (state.stage, event) {
        (MoveStageView::Settling, MoveEventView::Settled) => if state.summarize {
            (
                MoveView { stage: MoveStageView::Collecting, ..state },
                MoveActionView::CollectEntries,
            )
        } else {
            branch_step(state)
        },
        (MoveStageView::Collecting, MoveEventView::Collected { any }) => if any {
            (
                MoveView { stage: MoveStageView::Summarizing, ..state },
                MoveActionView::RunSummary {
                    custom_instructions: state.custom_instructions,
                    replace_instructions: state.replace_instructions,
                },
            )
        } else {
            branch_step(state)
        },
        (MoveStageView::Summarizing, MoveEventView::Summarized(outcome)) => match outcome {
            BranchView::Complete { summary, usage, details } => (
                MoveView { stage: MoveStageView::AppendingSummary, ..state },
                MoveActionView::AppendSummary { new_leaf: state.new_leaf, summary, details, usage },
            ),
            BranchView::Aborted => (
                answered,
                MoveActionView::Answer(success(None, "navigate_tree"@, Some(aborted_json()))),
            ),
            BranchView::Failed { error } => (answered, move_failure(error)),
        },
        (MoveStageView::AppendingSummary, MoveEventView::NoStore) => (
            answered,
            move_failure(STILL_INITIALIZING@),
        ),
        (MoveStageView::Branching, MoveEventView::NoStore) => (
            answered,
            move_failure(STILL_INITIALIZING@),
        ),
        (MoveStageView::AppendingSummary, MoveEventView::Appended(outcome)) => match outcome {
            Ok(summary_id) => match state.label {
                Some(label) => (
                    MoveView { stage: MoveStageView::LabelingSummary { summary_id }, ..state },
                    MoveActionView::AppendLabel { entry_id: summary_id, label },
                ),
                None => (
                    MoveView { stage: MoveStageView::ReadingSummary, ..state },
                    MoveActionView::ReadEntry { entry_id: summary_id },
                ),
            },
            Err(error) => (answered, move_failure(error)),
        },
        (MoveStageView::LabelingSummary { summary_id }, MoveEventView::Labeled(error)) => match error {
            Some(error) => (answered, move_failure(error)),
            None => (
                MoveView { stage: MoveStageView::ReadingSummary, ..state },
                MoveActionView::ReadEntry { entry_id: summary_id },
            ),
        },
        (MoveStageView::ReadingSummary, MoveEventView::Read(entry)) => rebuild_step(state, entry),
        (MoveStageView::Branching, MoveEventView::Moved(error)) => match error {
            Some(error) => (answered, move_failure(error)),
            None => match state.label {
                Some(label) => (
                    MoveView { stage: MoveStageView::LabelingTarget, ..state },
                    MoveActionView::AppendLabel { entry_id: state.target_id, label },
                ),
                None => rebuild_step(state, None),
            },
        },
        (MoveStageView::LabelingTarget, MoveEventView::Labeled(error)) => match error {
            Some(error) => (answered, move_failure(error)),
            None => rebuild_step(state, None),
        },
        (MoveStageView::Rebuilding { summary_entry }, MoveEventView::Rebuilt(error)) => match error {
            Some(error) => (answered, move_failure(error)),
            None => (
                answered,
                MoveActionView::Answer(
                    success(
                        None,
                        "navigate_tree"@,
                        Some(moved_json(state.editor_text, summary_entry)),
                    ),
                ),
            ),
        },
        _ => (state, MoveActionView::Ignore),
    }
}

fn refuse_move(error: &str) -> (r: MoveAction)
    ensures
        r@ == move_failure(error@),
{
    MoveAction::Answer(response_failure(None, "navigate_tree", error, None))
}

impl TreeMove {
    /// Begin a navigation.
    pub fn navigate_tree(payload: &Json, facts: Option<TreeFacts>) -> (r: (
        Option<TreeMove>,
        MoveAction,
    ))
        ensures
            (
                match r.0 {
                    Some(state) => Some(state@),
                    None => None,
                },
                r.1@,
            ) == move_begun(payload@, facts),
    {
        let target_id = payload.get_string_or_empty("targetId");
        let facts = match facts {
            Some(facts) => facts,
            None => {
                return (None, refuse_move(STILL_INITIALIZING));
            },
        };
        let target = match facts.target {
            Some(target) => target,
            None => {
                let error = crate::text::concat3("Entry ", target_id.as_str(), " not found");
                return (None, refuse_move(error.as_str()));
            },
        };
        if is_text(as_opt_str(&facts.leaf_id), target_id.as_str()) {
            let data = Json::object().field("cancelled", Json::Bool(false));
            return (
                None,
                MoveAction::Answer(response_success(None, "navigate_tree", Some(data))),
            );
        }
        let (new_leaf, editor_text) = navigation_point(&target, as_opt_str(&facts.user_text));
        let summarize = match payload.get_bool("summarize") {
            Some(summarize) => summarize,
            None => false,
        };
        let replace_instructions = match payload.get_bool("replaceInstructions") {
            Some(replace) => replace,
            None => false,
        };
        (
            Some(
                TreeMove {
                    target_id,
                    summarize,
                    replace_instructions,
                    custom_instructions: payload.get_string("customInstructions"),
                    label: payload.get_string("label"),
                    new_leaf,
                    editor_text,
                    stage: MoveStage::Settling,
                },
            ),
            MoveAction::SettleTurn,
        )
    }

    fn fail(&mut self, error: &str) -> (r: MoveAction)
        ensures
            final(self)@ == (MoveView { stage: MoveStageView::Answered, ..old(self)@ }),
            r@ == move_failure(error@),
    {
        self.stage = MoveStage::Answered;
        refuse_move(error)
    }

    fn branch(&mut self) -> (r: MoveAction)
        ensures
            (final(self)@, r@) == branch_step(old(self)@),
    {
        self.stage = MoveStage::Branching;
        MoveAction::BranchTo { new_leaf: copy_opt(&self.new_leaf) }
    }

    fn rebuild(&mut self, summary_entry: Option<Json>) -> (r: MoveAction)
        ensures
            (final(self)@, r@) == rebuild_step(old(self)@, opt_view(summary_entry)),
    {
        self.stage = MoveStage::Rebuilding { summary_entry };
        MoveAction::RebuildContext
    }

    /// Take what happened, and say what is done next.
    pub fn step(&mut self, event: MoveEvent) -> (r: MoveAction)
        ensures
            (final(self)@, r@) == move_step(old(self)@, event@),
    {
        match (&self.stage, event) {
            (MoveStage::Settling, MoveEvent::Settled) => {
                if self.summarize {
                    self.stage = MoveStage::Collecting;
                    MoveAction::CollectEntries
                } else {
                    self.branch()
                }
            },
            (MoveStage::Collecting, MoveEvent::Collected { any }) => {
                if any {
                    self.stage = MoveStage::Summarizing;
                    MoveAction::RunSummary {
                        custom_instructions: copy_opt(&self.custom_instructions),
                        replace_instructions: self.replace_instructions,
                    }
                } else {
                    self.branch()
                }
            },
            (MoveStage::Summarizing, MoveEvent::Summarized(outcome)) => match outcome {
                BranchSummaryOutcome::Complete { summary, usage, details } => {
                    self.stage = MoveStage::AppendingSummary;
                    MoveAction::AppendSummary {
                        new_leaf: copy_opt(&self.new_leaf),
                        summary,
                        details,
                        usage,
                    }
                },
                BranchSummaryOutcome::Aborted => {
                    self.stage = MoveStage::Answered;
                    let data = Json::object().field("cancelled", Json::Bool(true)).field(
                        "aborted",
                        Json::Bool(true),
                    );
                    MoveAction::Answer(response_success(None, "navigate_tree", Some(data)))
                },
                BranchSummaryOutcome::Failed { error } => self.fail(error.as_str()),
            },
            (MoveStage::AppendingSummary, MoveEvent::NoStore) => self.fail(STILL_INITIALIZING),
            (MoveStage::Branching, MoveEvent::NoStore) => self.fail(STILL_INITIALIZING),
            (MoveStage::AppendingSummary, MoveEvent::Appended(outcome)) => match outcome {
                Ok(summary_id) => match &self.label {
                    Some(label) => {
                        let label = label.clone();
                        let entry_id = summary_id.clone();
                        self.stage = MoveStage::LabelingSummary { summary_id };
                        MoveAction::AppendLabel { entry_id, label }
                    },
                    None => {
                        self.stage = MoveStage::ReadingSummary;
                        MoveAction::ReadEntry { entry_id: summary_id }
                    },
                },
                Err(error) => self.fail(error.as_str()),
            },
            (MoveStage::LabelingSummary { summary_id }, MoveEvent::Labeled(outcome)) => match outcome {
                Ok(_) => {
                    let entry_id = summary_id.clone();
                    self.stage = MoveStage::ReadingSummary;
                    MoveAction::ReadEntry { entry_id }
                },
                Err(error) => self.fail(error.as_str()),
            },
            (MoveStage::ReadingSummary, MoveEvent::Read(entry)) => self.rebuild(entry),
            (MoveStage::Branching, MoveEvent::Moved(outcome)) => match outcome {
                Ok(_) => match &self.label {
                    Some(label) => {
                        let label = label.clone();
                        self.stage = MoveStage::LabelingTarget;
                        MoveAction::AppendLabel { entry_id: self.target_id.clone(), label }
                    },
                    None => self.rebuild(None),
                },
                Err(error) => self.fail(error.as_str()),
            },
            (MoveStage::LabelingTarget, MoveEvent::Labeled(outcome)) => match outcome {
                Ok(_) => self.rebuild(None),
                Err(error) => self.fail(error.as_str()),
            },
            (MoveStage::Rebuilding { summary_entry }, MoveEvent::Rebuilt(outcome)) => match outcome {
                Ok(_) => {
                    let entry = crate::json::duplicate_opt(summary_entry);
                    let data = Json::object().field("cancelled", Json::Bool(false)).field_opt_str(
                        "editorText",
                        as_opt_str(&self.editor_text),
                    ).field_opt("summaryEntry", entry);
                    self.stage = MoveStage::Answered;
                    MoveAction::Answer(response_success(None, "navigate_tree", Some(data)))
                },
                Err(error) => self.fail(error.as_str()),
            },
            _ => MoveAction::Ignore,
        }
    }
}

/// A summary that was aborted or failed leaves the tree as it was: the
/// navigation is answered at once, and nothing follows the answer.
pub proof fn law_unfinished_summaries_leave_the_tree(
    state: MoveView,
    outcome: BranchView,
    event: MoveEventView,
)
    requires
        state.stage == MoveStageView::Summarizing,
        !(outcome is Complete),
    ensures
        move_step(state, MoveEventView::Summarized(outcome)).1 is Answer,
        move_step(move_step(state, MoveEventView::Summarized(outcome)).0, event).1
            == MoveActionView::Ignore,
{
}

/// A leaf moves to one place only: wherever a navigation moves it, it moves to
/// the landing point it began with, and the point and the target stay the same
/// in every step.
pub proof fn law_navigations_land_where_they_began(state: MoveView, event: MoveEventView)
    ensures
        ({
            let (after, action) = move_step(state, event);
            &&& after.new_leaf == state.new_leaf
            &&& after.target_id == state.target_id
            &&& after.editor_text == state.editor_text
            &&& action matches MoveActionView::BranchTo { new_leaf } ==> new_leaf == state.new_leaf
            &&& action matches MoveActionView::AppendSummary { new_leaf, .. } ==> new_leaf
                == state.new_leaf
        }),
{
}

/// A navigation is answered with success only once the engine took up the
/// branch, or where its summary was aborted; a failed step of the store or the
/// engine is answered with its error.
pub proof fn law_success_follows_the_rebuild(state: MoveView, event: MoveEventView)
    ensures
        move_step(state, event).1 matches MoveActionView::Answer(response) ==> (response.success
            <==> event == MoveEventView::Rebuilt(None) || event == MoveEventView::Summarized(
            BranchView::Aborted,
        )),
{
}

// ---------------------------------------------------------------------------
// Forks
// ---------------------------------------------------------------------------

/// Where a fork starts: the leaf of the copied path, and the text that goes
/// back to the input. Without a store or an entry it is refused; a fork before
/// an entry needs a user message.
pub open spec fn fork_start(payload: JsonView, facts: Option<TreeFacts>) -> Result<
    (Option<Seq<char>>, Option<Seq<char>>),
    Seq<char>,
> {
    match facts {
        None => Err(STILL_INITIALIZING@),
        Some(facts) => match facts.target {
            None => Err("Invalid entry ID for forking"@),
            Some(target) => if payload.get_str("position"@) == Some("at"@) {
                Ok((Some(or_empty(payload.get_str("entryId"@))), None))
            } else if facts.user_text is Some {
                Ok((target@.parent_id, opt_text(facts.user_text)))
            } else {
                Err("Invalid entry ID for forking"@)
            },
        },
    }
}

/// Where a fork starts.
#[derive(Debug, PartialEq, Eq)]
pub struct ForkPoint {
    pub target_leaf: Option<String>,
    pub selected_text: Option<String>,
}

/// Where a fork starts, or why it does not.
pub fn fork_point(payload: &Json, facts: Option<TreeFacts>) -> (r: Result<ForkPoint, String>)
    ensures
        match r {
            Ok(point) => fork_start(payload@, facts) == Ok::<
                (Option<Seq<char>>, Option<Seq<char>>),
                Seq<char>,
            >((opt_text(point.target_leaf), opt_text(point.selected_text))),
            Err(error) => fork_start(payload@, facts) == Err::<
                (Option<Seq<char>>, Option<Seq<char>>),
                Seq<char>,
            >(error@),
        },
{
    let facts = match facts {
        Some(facts) => facts,
        None => {
            return Err(STILL_INITIALIZING.to_owned());
        },
    };
    let target = match facts.target {
        Some(target) => target,
        None => {
            return Err("Invalid entry ID for forking".to_owned());
        },
    };
    if is_text(payload.get_str("position"), "at") {
        return Ok(
            ForkPoint {
                target_leaf: Some(payload.get_string_or_empty("entryId")),
                selected_text: None,
            },
        );
    }
    match facts.user_text {
        Some(text) => Ok(
            ForkPoint { target_leaf: target.parent_id, selected_text: Some(text) },
        ),
        None => Err("Invalid entry ID for forking".to_owned()),
    }
}

/// How the forked session comes to be.
#[derive(Debug, PartialEq, Eq)]
pub enum ForkPlan {
    /// A new empty session with the source as its parent, in a file of its own
    /// where the source has one.
    Fresh { parent_session: String, rlm_depth: u32, in_file: bool },
    /// The source's entries are replaced by the path to the leaf.
    InMemory { leaf_id: String },
    /// The path to the leaf is copied into a new file beside the source.
    InFile { leaf_id: String },
}

/// The directory that a fork is written to.
pub open spec fn dir_of_fork(store_path: Seq<char>) -> Seq<char> {
    match parent_of(store_path) {
        Some(dir) => dir,
        None => store_path,
    }
}

/// The directory that a fork is written to: that of the session's file.
pub fn fork_dir(store_path: &str) -> (r: String)
    ensures
        r@ == dir_of_fork(store_path@),
{
    match parent(store_path) {
        Some(dir) => dir,
        None => store_path.to_owned(),
    }
}

/// Whether a plan is how a forked session comes to be.
pub open spec fn is_fork_plan(
    plan: ForkPlan,
    target_leaf: Option<Seq<char>>,
    store_path: Seq<char>,
    rlm_depth: Option<u64>,
) -> bool {
    match plan {
        ForkPlan::Fresh { parent_session, rlm_depth: depth, in_file } => target_leaf is None
            && parent_session@ == store_path && depth == (match rlm_depth {
            Some(depth) => depth as u32,
            None => 0u32,
        }) && in_file == (store_path.len() > 0),
        ForkPlan::InMemory { leaf_id } => target_leaf == Some(leaf_id@)
            && store_path.len() == 0,
        ForkPlan::InFile { leaf_id } => target_leaf == Some(leaf_id@)
            && store_path.len() > 0,
    }
}

/// How the forked session comes to be: a fork without a leaf is a new session,
/// and one with a leaf takes the path to it, in a file where the source is in
/// one.
pub fn fork_plan(target_leaf: Option<&str>, store_path: &str, rlm_depth: Option<u64>) -> (r: ForkPlan)
    ensures
        is_fork_plan(r, opt_str(target_leaf), store_path@, rlm_depth),
{
    let in_file = !is_empty_text(store_path);
    match target_leaf {
        None => {
            let depth: u32 = match rlm_depth {
                Some(depth) => #[verifier::truncate] (depth as u32),
                None => 0,
            };
            ForkPlan::Fresh { parent_session: store_path.to_owned(), rlm_depth: depth, in_file }
        },
        Some(leaf_id) => {
            if in_file {
                ForkPlan::InFile { leaf_id: leaf_id.to_owned() }
            } else {
                ForkPlan::InMemory { leaf_id: leaf_id.to_owned() }
            }
        },
    }
}

/// The answer to a fork.
pub open spec fn fork_answer(
    outcome: Result<(), String>,
    selected_text: Option<Seq<char>>,
) -> ResponseView {
    match outcome {
        Ok(_) => success(
            None,
            "fork"@,
            Some(
                JsonView::object().field("cancelled"@, JsonView::Bool(false)).field_opt(
                    "selectedText"@,
                    opt_string(selected_text),
                ),
            ),
        ),
        Err(error) => failure(None, "fork"@, error@),
    }
}

/// The answer to a fork: its error where it failed, else the text that goes
/// back to the input.
pub fn fork(outcome: Result<(), String>, selected_text: Option<&str>) -> (r: DaemonResponse)
    ensures
        r@ == fork_answer(outcome, opt_str(selected_text)),
{
    match outcome {
        Ok(_) => response_success(
            None,
            "fork",
            Some(
                Json::object().field("cancelled", Json::Bool(false)).field_opt_str(
                    "selectedText",
                    selected_text,
                ),
            ),
        ),
        Err(error) => response_failure(None, "fork", error.as_str(), None),
    }
}

/// A fork before a user message keeps what came before it and gives its text
/// back, as a navigation to it does.
pub proof fn law_fork_before_matches_navigation(payload: JsonView, facts: TreeFacts)
    requires
        facts.target is Some,
        facts.user_text is Some,
        payload.get_str("position"@) != Some("at"@),
    ensures
        fork_start(payload, Some(facts)) == Ok::<
            (Option<Seq<char>>, Option<Seq<char>>),
            Seq<char>,
        >(landing(facts.target->0@, opt_text(facts.user_text))),
{
}

} // verus!
