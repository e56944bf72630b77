//! The compaction that a crossed threshold starts at a turn boundary.
use vstd::prelude::*;

use crate::compaction::{
    compaction_end_payload, compaction_outcome_row, compaction_result, compaction_start, end_json,
    outcome_row, result_json, start_json, CompactionReason,
};
use crate::engine::{EngineEvent, EventView};
use crate::json::{Json, JsonView};

verus! {

/// What a threshold check at a turn boundary did.
#[derive(Debug, Clone, Copy, PartialEq, Eq, Structural)]
pub enum AutoCompactionRun {
    /// The threshold was not crossed.
    NotDue,
    /// A compaction ran, well or not.
    Ran,
    /// An event was refused: the turn loop stops.
    Cancelled,
}

/// How the session's own compaction ended.
#[derive(Debug, PartialEq, Eq)]
pub enum CompactOutcome {
    Ran { summary: String, first_kept_entry_id: String, tokens_before: u64, entry: Json },
    Skipped(String),
    Failed(String),
}

/// The events that an outcome is told by: one for a run, and for anything else
/// the row that tells of it and then its end.
pub open spec fn outcome_events(
    reason: CompactionReason,
    prefix: Seq<char>,
    failed_severity: Option<Seq<char>>,
    outcome: CompactOutcome,
) -> Seq<EventView> {
    match outcome {
        CompactOutcome::Ran { summary, first_kept_entry_id, tokens_before, entry } => seq![
            EventView::Compaction {
                entry: entry@,
                event: end_json(
                    reason.text(),
                    Some(result_json(summary@, first_kept_entry_id@, tokens_before)),
                    false,
                    None,
                    None,
                    None,
                ),
            },
        ],
        CompactOutcome::Skipped(message) => unsuccessful_events(
            reason,
            "skipped"@,
            prefix + " skipped: "@ + message@,
            Some("warning"@),
        ),
        CompactOutcome::Failed(error) => unsuccessful_events(
            reason,
            "failed"@,
            prefix + " failed: "@ + error@,
            failed_severity,
        ),
    }
}

/// The events of a compaction that did nothing: its row, then its end.
pub open spec fn unsuccessful_events(
    reason: CompactionReason,
    outcome: Seq<char>,
    message: Seq<char>,
    severity: Option<Seq<char>>,
) -> Seq<EventView> {
    seq![
        EventView::CustomMessage(outcome_row(reason.text(), outcome, message)),
        EventView::Compaction {
            entry: JsonView::Null,
            event: end_json(reason.text(), None, false, Some(message), severity, None),
        },
    ]
}

fn emit_unsuccessful_compaction(
    reason: CompactionReason,
    outcome: &str,
    message: &str,
    severity: Option<&str>,
) -> (r: Vec<EngineEvent>)
    ensures
        crate::engine::events_view(r@) == unsuccessful_events(
            reason,
            outcome@,
            message@,
            crate::text::opt_str(severity),
        ),
{
    let row = EngineEvent::CustomMessage(compaction_outcome_row(reason, outcome, message));
    let end = EngineEvent::Compaction {
        entry: Json::Null,
        event: compaction_end_payload(
            reason.as_str(),
            None,
            false,
            Some(message),
            severity,
            None,
        ),
    };
    let r: Vec<EngineEvent> = vec![row, end];
    assert(crate::engine::events_view(r@) =~= unsuccessful_events(
        reason,
        outcome@,
        message@,
        crate::text::opt_str(severity),
    ));
    r
}

/// The events that the outcome of a compaction is told by.
pub fn compaction_events(
    reason: CompactionReason,
    prefix: &str,
    failed_severity: Option<&str>,
    outcome: CompactOutcome,
) -> (r: Vec<EngineEvent>)
    ensures
        crate::engine::events_view(r@) == outcome_events(
            reason,
            prefix@,
            crate::text::opt_str(failed_severity),
            outcome,
        ),
{
    match outcome {
        CompactOutcome::Ran { summary, first_kept_entry_id, tokens_before, entry } => {
            let result = compaction_result(
                summary.as_str(),
                first_kept_entry_id.as_str(),
                tokens_before,
            );
            let event = compaction_end_payload(
                reason.as_str(),
                Some(&result),
                false,
                None,
                None,
                None,
            );
            let r: Vec<EngineEvent> = vec![EngineEvent::Compaction { entry, event }];
            assert(crate::engine::events_view(r@) =~= outcome_events(
                reason,
                prefix@,
                crate::text::opt_str(failed_severity),
                outcome,
            ));
            r
        },
        CompactOutcome::Skipped(message) => emit_unsuccessful_compaction(
            reason,
            "skipped",
            crate::text::concat3(prefix, " skipped: ", message.as_str()).as_str(),
            Some("warning"),
        ),
        CompactOutcome::Failed(error) => emit_unsuccessful_compaction(
            reason,
            "failed",
            crate::text::concat3(prefix, " failed: ", error.as_str()).as_str(),
            failed_severity,
        ),
    }
}

/// The event that a due threshold compaction begins with: one is due where the
/// session has a model and a context, and its context is over the threshold.
pub open spec fn due_event(
    model_resolved: bool,
    context_over_threshold: Option<bool>,
) -> Option<EventView> {
    if model_resolved && context_over_threshold == Some(true) {
        Some(EventView::CompactionStart { event: start_json("threshold"@, None) })
    } else {
        None
    }
}

/// The event that a due threshold compaction begins with; none where the
/// session has no model or no context, or its context is below the threshold.
pub fn run_auto_compaction(model_resolved: bool, context_over_threshold: Option<bool>) -> (r: Option<
    EngineEvent,
>)
    ensures
        match r {
            Some(event) => due_event(model_resolved, context_over_threshold) == Some(event@),
            None => due_event(model_resolved, context_over_threshold) is None,
        },
{
    if !model_resolved {
        return None;
    }
    match context_over_threshold {
        Some(true) => Some(
            EngineEvent::CompactionStart { event: compaction_start("threshold", None) },
        ),
        _ => None,
    }
}

/// The events that the outcome of a threshold compaction is told by.
pub fn auto_compaction_events(outcome: CompactOutcome) -> (r: Vec<EngineEvent>)
    ensures
        crate::engine::events_view(r@) == outcome_events(
            CompactionReason::Threshold,
            "Auto-compaction"@,
            Some("error"@),
            outcome,
        ),
{
    compaction_events(CompactionReason::Threshold, "Auto-compaction", Some("error"), outcome)
}

/// What a threshold check did: it was not due, an event of it was refused, the
/// session went away after its start was told, or it ran.
pub open spec fn check_run(
    due: bool,
    start_accepted: bool,
    session_there: bool,
    events_accepted: bool,
) -> AutoCompactionRun {
    if !due {
        AutoCompactionRun::NotDue
    } else if !start_accepted {
        AutoCompactionRun::Cancelled
    } else if !session_there {
        AutoCompactionRun::NotDue
    } else if events_accepted {
        AutoCompactionRun::Ran
    } else {
        AutoCompactionRun::Cancelled
    }
}

/// What a threshold check did.
pub fn auto_compaction_verdict(
    due: bool,
    start_accepted: bool,
    session_there: bool,
    events_accepted: bool,
) -> (r: AutoCompactionRun)
    ensures
        r == check_run(due, start_accepted, session_there, events_accepted),
{
    if !due {
        AutoCompactionRun::NotDue
    } else if !start_accepted {
        AutoCompactionRun::Cancelled
    } else if !session_there {
        AutoCompactionRun::NotDue
    } else if events_accepted {
        AutoCompactionRun::Ran
    } else {
        AutoCompactionRun::Cancelled
    }
}

} // verus!
