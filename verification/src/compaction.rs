//! Compactions of a session: their events, the entry they leave, and the slot
//! that an abort goes to.
use vstd::prelude::*;

use crate::engine::{no_details, no_details_value, CompactionOutcome, CompactionRun, OutcomeView};
use crate::json::{opt_ref_view, or_empty, or_null, Json, JsonView};
use crate::protocol::opt_string;
use crate::session_window::{EntryView, SessionEntry, entries_view};
use crate::text::{concat2, is_empty_text, opt_str, same_text};

verus! {

/// The event that a compaction begins.
pub open spec fn start_json(reason: Seq<char>, custom_instructions: Option<Seq<char>>) -> JsonView {
    JsonView::object().field("type"@, JsonView::Str("compaction_start"@)).field(
        "reason"@,
        JsonView::Str(reason),
    ).field_opt("customInstructions"@, opt_string(custom_instructions))
}

/// The event that a compaction begins, for the reason it does.
pub fn compaction_start(reason: &str, custom_instructions: Option<&str>) -> (r: Json)
    ensures
        r@ == start_json(reason@, opt_str(custom_instructions)),
{
    Json::object().field("type", Json::string("compaction_start")).field(
        "reason",
        Json::string(reason),
    ).field_opt_str("customInstructions", custom_instructions)
}

/// The event that a compaction begins which the user asked for.
pub fn compaction_start_event(custom_instructions: Option<&str>) -> (r: Json)
    ensures
        r@ == start_json("manual"@, opt_str(custom_instructions)),
{
    compaction_start("manual", custom_instructions)
}

/// The event that a compaction ended.
pub open spec fn end_json(
    reason: Seq<char>,
    result: Option<JsonView>,
    aborted: bool,
    error_message: Option<Seq<char>>,
    error_severity: Option<Seq<char>>,
    custom_instructions: Option<Seq<char>>,
) -> JsonView {
    JsonView::object().field("type"@, JsonView::Str("compaction_end"@)).field(
        "reason"@,
        JsonView::Str(reason),
    ).field_opt("result"@, result).field("aborted"@, JsonView::Bool(aborted)).field_opt(
        "errorMessage"@,
        opt_string(error_message),
    ).field_opt("errorSeverity"@, opt_string(error_severity)).field(
        "willRetry"@,
        JsonView::Bool(false),
    ).field_opt("customInstructions"@, opt_string(custom_instructions))
}

/// The event that a compaction ended.
pub fn compaction_end_payload(
    reason: &str,
    result: Option<&Json>,
    aborted: bool,
    error_message: Option<&str>,
    error_severity: Option<&str>,
    custom_instructions: Option<&str>,
) -> (r: Json)
    ensures
        r@ == end_json(
            reason@,
            opt_ref_view(result),
            aborted,
            opt_str(error_message),
            opt_str(error_severity),
            opt_str(custom_instructions),
        ),
{
    let result = match result {
        Some(result) => Some(result.duplicate()),
        None => None,
    };
    Json::object().field("type", Json::string("compaction_end")).field(
        "reason",
        Json::string(reason),
    ).field_opt("result", result).field("aborted", Json::Bool(aborted)).field_opt_str(
        "errorMessage",
        error_message,
    ).field_opt_str("errorSeverity", error_severity).field("willRetry", Json::Bool(false)).field_opt_str(
        "customInstructions",
        custom_instructions,
    )
}

/// The event of an outcome: a success carries its result, a skip its message as
/// a warning, a failure its error, and an abort that it was one.
pub open spec fn end_of(
    outcome: OutcomeView,
    custom_instructions: Option<Seq<char>>,
) -> JsonView {
    match outcome {
        OutcomeView::Compacted { result, .. } => end_json(
            "manual"@,
            Some(result),
            false,
            None,
            None,
            custom_instructions,
        ),
        OutcomeView::Skipped { message } => end_json(
            "manual"@,
            None,
            false,
            Some(message),
            Some("warning"@),
            custom_instructions,
        ),
        OutcomeView::Failed { error } => end_json(
            "manual"@,
            None,
            false,
            Some("Compaction failed: "@ + error),
            Some("error"@),
            custom_instructions,
        ),
        OutcomeView::Aborted => end_json(
            "manual"@,
            None,
            true,
            None,
            Some("error"@),
            custom_instructions,
        ),
    }
}

/// The event of an outcome.
pub fn compaction_end_event(outcome: &CompactionOutcome, custom_instructions: Option<&str>) -> (r:
    Json)
    ensures
        r@ == end_of(outcome@, opt_str(custom_instructions)),
{
    match outcome {
        CompactionOutcome::Compacted { run } => compaction_end_payload(
            "manual",
            Some(&run.result),
            false,
            None,
            None,
            custom_instructions,
        ),
        CompactionOutcome::Skipped { message } => compaction_end_payload(
            "manual",
            None,
            false,
            Some(message.as_str()),
            Some("warning"),
            custom_instructions,
        ),
        CompactionOutcome::Failed { error } => compaction_end_payload(
            "manual",
            None,
            false,
            Some(concat2("Compaction failed: ", error.as_str()).as_str()),
            Some("error"),
            custom_instructions,
        ),
        CompactionOutcome::Aborted => compaction_end_payload(
            "manual",
            None,
            true,
            None,
            Some("error"),
            custom_instructions,
        ),
    }
}

/// The result of a compaction as it is sent.
pub open spec fn result_json(
    summary: Seq<char>,
    first_kept_entry_id: Seq<char>,
    tokens_before: u64,
) -> JsonView {
    JsonView::object().field("summary"@, JsonView::Str(summary)).field(
        "firstKeptEntryId"@,
        JsonView::Str(first_kept_entry_id),
    ).field("tokensBefore"@, JsonView::uint(tokens_before))
}

/// The result of a compaction as it is sent.
pub fn compaction_result(summary: &str, first_kept_entry_id: &str, tokens_before: u64) -> (r: Json)
    ensures
        r@ == result_json(summary@, first_kept_entry_id@, tokens_before),
{
    Json::object().field("summary", Json::string(summary)).field(
        "firstKeptEntryId",
        Json::string(first_kept_entry_id),
    ).field("tokensBefore", Json::uint(tokens_before))
}

/// The id of the first message of a branch.
pub open spec fn first_message_id(branch: Seq<EntryView>) -> Option<Seq<char>>
    decreases branch.len(),
{
    if branch.len() == 0 {
        None
    } else if branch[0].type_ == "message"@ {
        Some(branch[0].id)
    } else {
        first_message_id(branch.drop_first())
    }
}

/// The boundary that a compaction entry records. A run without a boundary keeps
/// from the first message; any other is pinned to the durable cut, and keeps
/// its own boundary where there is no such cut.
pub open spec fn boundary_of(
    reported: Seq<char>,
    branch: Seq<EntryView>,
    durable_cut: Option<Seq<char>>,
) -> Seq<char> {
    if reported.len() == 0 {
        or_empty(first_message_id(branch))
    } else {
        match durable_cut {
            Some(cut) => cut,
            None => reported,
        }
    }
}

/// The boundary that a compaction entry records.
pub fn first_kept_entry_id(
    result: &Json,
    branch: &Vec<SessionEntry>,
    durable_cut: Option<&str>,
) -> (r: String)
    ensures
        r@ == boundary_of(
            or_empty(result@.get_str("firstKeptEntryId"@)),
            entries_view(branch@),
            opt_str(durable_cut),
        ),
{
    let reported = result.get_string_or_empty("firstKeptEntryId");
    if !is_empty_text(reported.as_str()) {
        return match durable_cut {
            Some(cut) => cut.to_owned(),
            None => reported,
        };
    }
    let ghost all = entries_view(branch@);
    let mut i: usize = 0;
    assert(all.skip(0) =~= all);
    while i < branch.len()
        invariant
            i <= branch@.len(),
            all == entries_view(branch@),
            first_message_id(all) == first_message_id(all.skip(i as int)),
            reported@.len() == 0,
            reported@ == or_empty(result@.get_str("firstKeptEntryId"@)),
        decreases branch@.len() - i,
    {
        assert(all.skip(i as int)[0] == branch@[i as int]@);
        assert(all.skip(i as int).drop_first() =~= all.skip(i + 1));
        if same_text(branch[i].type_.as_str(), "message") {
            return branch[i].id.clone();
        }
        i = i + 1;
    }
    assert(all.skip(i as int) =~= Seq::empty());
    String::new()
}

/// The members of the entry that a compaction leaves in the session file.
pub open spec fn entry_fields(
    result: JsonView,
    usage: Option<JsonView>,
    first_kept: Seq<char>,
    custom_instructions: Option<Seq<char>>,
) -> JsonView {
    JsonView::object().field("summary"@, or_null(result.get("summary"@))).field(
        "firstKeptEntryId"@,
        JsonView::Str(first_kept),
    ).field(
        "tokensBefore"@,
        match result.get("tokensBefore"@) {
            Some(tokens) => tokens,
            None => JsonView::uint(0),
        },
    ).field(
        "details"@,
        match result.get("details"@) {
            Some(details) => details,
            None => no_details(),
        },
    ).field("fromHook"@, JsonView::Bool(false)).field_opt(
        "customInstructions"@,
        opt_string(custom_instructions),
    ).field_opt("usage"@, usage)
}

/// The members of the entry that a compaction leaves in the session file.
pub fn persist_compaction(
    run: &CompactionRun,
    first_kept: &str,
    custom_instructions: Option<&str>,
) -> (r: Json)
    ensures
        r@ == entry_fields(
            run.result@,
            crate::json::opt_view(run.usage),
            first_kept@,
            opt_str(custom_instructions),
        ),
{
    let tokens = match run.result.get("tokensBefore") {
        Some(tokens) => tokens.duplicate(),
        None => Json::uint(0),
    };
    let details = match run.result.get("details") {
        Some(details) => details.duplicate(),
        None => no_details_value(),
    };
    Json::object().field("summary", run.result.get_or_null("summary")).field(
        "firstKeptEntryId",
        Json::string(first_kept),
    ).field("tokensBefore", tokens).field("details", details).field("fromHook", Json::Bool(false)).field_opt_str(
        "customInstructions",
        custom_instructions,
    ).field_opt("usage", crate::json::duplicate_opt(&run.usage))
}

/// The running compaction of a session: whether one runs, and the run that an
/// abort goes to.
#[derive(Debug, Clone, Copy, PartialEq, Eq, Structural)]
pub struct CompactionManager {
    pub compacting: bool,
    pub auto_compaction_enabled: bool,
    pub live: Option<u64>,
}

impl CompactionManager {
    /// The state once a run began.
    pub open spec fn begun(self, run: u64) -> CompactionManager {
        CompactionManager { compacting: true, live: Some(run), ..self }
    }

    /// The state once a run ended: its slot is cleared only where it is still
    /// its own.
    pub open spec fn finished(self, run: u64) -> CompactionManager {
        CompactionManager {
            compacting: false,
            live: if self.live == Some(run) {
                None
            } else {
                self.live
            },
            ..self
        }
    }

    /// No compaction runs.
    pub fn new() -> (r: CompactionManager)
        ensures
            r == (CompactionManager {
                compacting: false,
                auto_compaction_enabled: true,
                live: None,
            }),
    {
        CompactionManager { compacting: false, auto_compaction_enabled: true, live: None }
    }

    /// The run that an abort goes to: the newest one, where one runs.
    pub fn abort(&self) -> (r: Option<u64>)
        ensures
            r == self.live,
    {
        self.live
    }

    /// Turn automatic compaction on or off.
    pub fn set_auto_compaction(&mut self, enabled: bool)
        ensures
            *final(self) == (CompactionManager { auto_compaction_enabled: enabled, ..*old(self) }),
    {
        self.auto_compaction_enabled = enabled;
    }

    /// A run begins: it takes the slot, and its event is sent.
    pub fn begin(&mut self, run: u64, custom_instructions: Option<&str>) -> (r: Json)
        ensures
            *final(self) == old(self).begun(run),
            r@ == start_json("manual"@, opt_str(custom_instructions)),
    {
        self.compacting = true;
        self.live = Some(run);
        compaction_start_event(custom_instructions)
    }

    /// A run ended: no compaction runs any more, its event is sent, and the slot
    /// is cleared only where it is still this run's.
    pub fn finish(
        &mut self,
        run: u64,
        outcome: &CompactionOutcome,
        custom_instructions: Option<&str>,
    ) -> (r: Json)
        ensures
            *final(self) == old(self).finished(run),
            r@ == end_of(outcome@, opt_str(custom_instructions)),
    {
        self.compacting = false;
        if self.live == Some(run) {
            self.live = None;
        }
        compaction_end_event(outcome, custom_instructions)
    }
}

/// An abort goes to the newest run: a run that began later keeps the slot when
/// an older one ends, and gives it up only when it ends itself.
pub proof fn law_only_its_own_run_clears_the_slot(manager: CompactionManager, older: u64, newer: u64)
    requires
        older != newer,
    ensures
        manager.begun(older).begun(newer).finished(older).live == Some(newer),
        manager.begun(older).begun(newer).finished(older).finished(newer).live is None,
        manager.begun(older).finished(older).live is None,
{
}

/// What a command that needs the turn to settle does next.
#[derive(Debug, Clone, Copy, PartialEq, Eq, Structural)]
pub enum SettleStep {
    /// The turn settled: go on.
    Proceed,
    /// Wait for the turn, then look again.
    Wait { ms: u64 },
}

/// How long a settling turn is waited for before it is looked at again.
pub const SETTLE_POLL_MS: u64 = 50;

/// Whether a step is one look at a turn that must settle first, and the abort it asks for.
pub open spec fn is_settle_look(step: SettleStep, busy: bool, before: bool, after: bool) -> bool {
    &&& busy ==> step == (SettleStep::Wait { ms: SETTLE_POLL_MS }) && after
    &&& !busy ==> step == SettleStep::Proceed && after == before
}

/// One look at a turn that must settle first: a running turn is asked to abort
/// and waited for.
pub fn wait_for_turn_end(busy: bool, abort_requested: &mut bool) -> (r: SettleStep)
    ensures
        is_settle_look(r, busy, *old(abort_requested), *final(abort_requested)),
{
    if busy {
        *abort_requested = true;
        SettleStep::Wait { ms: SETTLE_POLL_MS }
    } else {
        SettleStep::Proceed
    }
}

/// Why a compaction was started by the engine itself.
#[derive(Debug, Clone, Copy, PartialEq, Eq, Structural)]
pub enum CompactionReason {
    Threshold,
    Requested,
}

impl CompactionReason {
    pub open spec fn text(self) -> Seq<char> {
        match self {
            CompactionReason::Threshold => "threshold"@,
            CompactionReason::Requested => "requested"@,
        }
    }

    /// The reason as it is sent.
    pub fn as_str(self) -> (r: &'static str)
        ensures
            r@ == self.text(),
    {
        match self {
            CompactionReason::Threshold => "threshold",
            CompactionReason::Requested => "requested",
        }
    }
}

/// The row that tells of a compaction that did nothing.
pub open spec fn outcome_row(
    reason: Seq<char>,
    outcome: Seq<char>,
    message: Seq<char>,
) -> JsonView {
    JsonView::object().field("role"@, JsonView::Str("custom"@)).field(
        "customType"@,
        JsonView::Str("compaction_outcome"@),
    ).field("content"@, JsonView::Str(message)).field("display"@, JsonView::Bool(true)).field(
        "details"@,
        JsonView::object().field("reason"@, JsonView::Str(reason)).field(
            "outcome"@,
            JsonView::Str(outcome),
        ),
    )
}

/// The row that tells of a compaction that did nothing.
pub fn compaction_outcome_row(reason: CompactionReason, outcome: &str, message: &str) -> (r: Json)
    ensures
        r@ == outcome_row(reason.text(), outcome@, message@),
{
    Json::object().field("role", Json::string("custom")).field(
        "customType",
        Json::string("compaction_outcome"),
    ).field("content", Json::string(message)).field("display", Json::Bool(true)).field(
        "details",
        Json::object().field("reason", Json::string(reason.as_str())).field(
            "outcome",
            Json::string(outcome),
        ),
    )
}

} // verus!
