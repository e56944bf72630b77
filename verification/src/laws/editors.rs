//! Laws of the connection that an editor hosts a session through.
use vstd::prelude::*;

use crate::acp::session::{
    block_error, boundary_update, completion_update, failure_of, keys_of, newest_key, projected,
    quiet, terminal_update, update_of, AcpEventView, AdmittedPrompt, KeyView, LoopSignal,
    PrimeAgentEventPhase, TranscriptMessage,
};
use crate::acp::{
    error_json, identity, internal_json, is_admitted, is_request, is_same_directory, method_of,
    new_session_json, outcome_of, prompt_refusal, prompt_turn_step, result_json, stop_json,
    version_error, wrong_version, AcpMethod, AcpStopReason, AdmittedSession, CloseAdmission,
    ConnectionState, ConnectionView, HostedView, INTERNAL_ERROR, INVALID_PARAMS, PrimeAgentOutcome,
    PromptAdmission, PromptTurnView, TurnActionView, TurnEventView, TurnUpdate,
};
use crate::agent_engine::{ImageContent, StopReason, StreamEvent};
use crate::ids::is_id_text;
use crate::json::{group_members, opt_view, Json, JsonView, NumberView};

verus! {

/// A frame answers the request that it names, with its result or with its error.
pub proof fn law_frames_answer_their_request(
    id: JsonView,
    result: JsonView,
    code: i64,
    message: Seq<char>,
    reason: Seq<char>,
)
    ensures
        result_json(id, result).carries("id"@, id),
        result_json(id, result).carries("result"@, result),
        result_json(id, result).carries("jsonrpc"@, JsonView::Str("2.0"@)),
        error_json(id, code, message, result).carries("id"@, id),
        error_json(id, code, message, result).carries(
            "error"@,
            JsonView::object().field("code"@, JsonView::Number(NumberView::Negative(code))).field(
                "message"@,
                JsonView::Str(message),
            ).field("data"@, result),
        ),
        internal_json(id, reason) == error_json(
            id,
            INTERNAL_ERROR,
            "Internal error"@,
            JsonView::object().field("details"@, JsonView::Str(reason)),
        ),
        block_error(id, reason) == error_json(
            id,
            INVALID_PARAMS,
            "Invalid params"@,
            JsonView::object().field("reason"@, JsonView::Str(reason)),
        ),
{
    broadcast use group_members;

}

/// Each request is served by its own method, and no other is.
pub proof fn law_methods_are_served(method: Seq<char>)
    ensures
        method_of("initialize"@) == Some(AcpMethod::Initialize),
        method_of("session/new"@) == Some(AcpMethod::SessionNew),
        method_of("session/prompt"@) == Some(AcpMethod::SessionPrompt),
        method_of("session/close"@) == Some(AcpMethod::SessionClose),
        method_of(method) is Some ==> method == "initialize"@ || method == "session/new"@ || method
            == "session/prompt"@ || method == "session/close"@,
{
    reveal_strlit("initialize");
    reveal_strlit("session/new");
    reveal_strlit("session/prompt");
    reveal_strlit("session/close");
    assert("initialize"@.len() == 10);
    assert("session/new"@.len() == 11);
    assert("session/prompt"@.len() == 14);
    assert("session/close"@.len() == 13);
}

/// A protocol version must be a number, and anything else is named by what it is.
pub proof fn law_versions_are_numbers(params: JsonView, id: JsonView, received: Seq<char>)
    ensures
        wrong_version(params) is None <==> params.get("protocolVersion"@) is Some && params.get(
            "protocolVersion"@,
        )->0 is Number,
        params.get("protocolVersion"@) is None ==> wrong_version(params) == Some("undefined"@),
        params.get_str("protocolVersion"@) is Some ==> wrong_version(params) == Some("string"@),
        params.get_bool("protocolVersion"@) is Some ==> wrong_version(params) == Some("boolean"@),
        version_error(id, received).carries("id"@, id),
{
    broadcast use group_members;

}

/// A session is admitted exactly into a free place, is hosted under the id it was
/// admitted by, without a turn and not cancelled; one that was not admitted leaves
/// what is hosted.
pub proof fn law_admitted_sessions_are_hosted(state: ConnectionView, id: Seq<char>)
    ensures
        state.vacant() <==> state.session is None && !state.session_new_in_flight
            && !state.session_close_in_flight,
        state.vacant() ==> state.new_begun().session_new_in_flight && state.new_begun().session
            is None,
        state.new_finished(Some(id)).session == Some(
            HostedView { id, prompt_running: false, cancel_requested: false },
        ),
        state.new_finished(None).session == state.session,
        !state.new_finished(Some(id)).session_new_in_flight,
        !state.new_finished(None).session_new_in_flight,
        state.new_finished(Some(id)).session_close_in_flight == state.session_close_in_flight,
{
}

/// Only the hosted session's turn is marked as running or ended.
pub proof fn law_turns_are_marked_on_their_session(
    state: ConnectionView,
    id: Seq<char>,
    running: bool,
)
    ensures
        state.session matches Some(entry) ==> (entry.id == id ==> (state.with_prompt(
            id,
            running,
        ).session matches Some(after) && after.prompt_running == running && after.id == id
            && after.cancel_requested == entry.cancel_requested)) && (entry.id != id
            ==> state.with_prompt(id, running) == state),
        state.session is None ==> state.with_prompt(id, running) == state,
{
}

/// A running turn that is cancelled the first time is marked so, and nothing else of
/// its session changes.
pub proof fn law_running_turns_are_cancelled(state: ConnectionView, id: Seq<char>)
    ensures
        state.cancels(id) <==> state.session is Some && state.session->0.id == id
            && state.session->0.prompt_running && !state.session->0.cancel_requested,
        state.cancels(id) ==> (state.cancelled(id).session matches Some(after)
            && after.cancel_requested && after.id == id && after.prompt_running),
        !state.cancels(id) ==> state.cancelled(id) == state,
{
}

/// A close of the hosted session is under way once it is asked for; a second one
/// changes nothing, and any close gives the place up.
pub proof fn law_closes_give_the_place_up(state: ConnectionView, id: Seq<char>)
    ensures
        state.session_close_in_flight ==> state.close_begun(id) == state,
        !state.session_close_in_flight ==> state.close_begun(id).session is None && (
        state.close_begun(id).session_close_in_flight <==> state.session is Some
            && state.session->0.id == id),
{
}

/// A prompt is refused exactly without a session, while one closes and while a turn
/// runs, and told which.
pub proof fn law_prompts_are_refused_for_a_reason(state: ConnectionView, id: Seq<char>)
    ensures
        prompt_refusal(state, id) is None <==> state.session is Some
            && !state.session_close_in_flight && !state.session->0.prompt_running,
        state.session is None ==> prompt_refusal(state, id) == Some("Unknown ACP session: "@ + id),
        state.session is Some && state.session_close_in_flight ==> prompt_refusal(state, id)
            == Some("ACP session is closing: "@ + id),
        state.session is Some && !state.session_close_in_flight && state.session->0.prompt_running
            ==> prompt_refusal(state, id) == Some(
            "A prompt turn is already running for this ACP session"@,
        ),
{
}

/// A turn is answered as it went: a cancelled one as cancelled, a failed one with its
/// failure, and only one that neither failed nor was cancelled as ended; an update
/// that could not be published fails it.
pub proof fn law_turns_are_answered_as_they_went(
    id: JsonView,
    failure: Option<Seq<char>>,
    error: Seq<char>,
)
    ensures
        prompt_turn_step(PromptTurnView::Admitting, id, TurnEventView::Admitted(None)) == (
            PromptTurnView::Settling,
            TurnActionView::WaitForIdle,
        ),
        prompt_turn_step(
            PromptTurnView::Settling,
            id,
            TurnEventView::Settled { cancelled: true, failure },
        ).1 == (TurnActionView::Finish {
            response: result_json(id, stop_json(AcpStopReason::Cancelled)),
            clear_slot: true,
        }),
        prompt_turn_step(
            PromptTurnView::Terminal { failure: Some(error) },
            id,
            TurnEventView::Published(true),
        ).1 == (TurnActionView::Finish {
            response: internal_json(id, "prime-agent turn failed: "@ + error),
            clear_slot: true,
        }),
        prompt_turn_step(
            PromptTurnView::Terminal { failure: None },
            id,
            TurnEventView::Published(true),
        ).1 == (TurnActionView::Finish {
            response: result_json(id, stop_json(AcpStopReason::EndTurn)),
            clear_slot: true,
        }),
        prompt_turn_step(
            PromptTurnView::Boundary { failure },
            id,
            TurnEventView::Published(false),
        ).1 == (TurnActionView::Finish {
            response: internal_json(id, "Failed to publish ACP response boundary"@),
            clear_slot: true,
        }),
        prompt_turn_step(
            PromptTurnView::Completion { failure },
            id,
            TurnEventView::Published(false),
        ).1 == (TurnActionView::Finish {
            response: internal_json(id, "Failed to publish ACP completion update"@),
            clear_slot: true,
        }),
        prompt_turn_step(
            PromptTurnView::Terminal { failure },
            id,
            TurnEventView::Published(false),
        ).1 == (TurnActionView::Finish {
            response: internal_json(id, "Failed to publish ACP completion update"@),
            clear_slot: true,
        }),
        prompt_turn_step(
            PromptTurnView::Boundary { failure },
            id,
            TurnEventView::Published(true),
        ).0 == (PromptTurnView::Completion { failure }),
        prompt_turn_step(
            PromptTurnView::Completion { failure },
            id,
            TurnEventView::Published(true),
        ).0 == (PromptTurnView::Terminal { failure }),
        outcome_of(failure) == PrimeAgentOutcome::Error <==> failure is Some,
        stop_json(AcpStopReason::EndTurn).carries("stopReason"@, JsonView::Str("end_turn"@)),
        stop_json(AcpStopReason::Cancelled).carries("stopReason"@, JsonView::Str("cancelled"@)),
{
    broadcast use group_members;

}

/// A client is told of every message, of every text and thinking that was added, and
/// of every call of a tool with its result; an empty addition is not told.
pub proof fn law_editors_are_told_of_the_turn(signal: LoopSignal)
    ensures
        signal matches LoopSignal::MessageStart { role } ==> projected(signal) == Some(
            AcpEventView::MessageStart { role: role@ },
        ),
        signal matches LoopSignal::MessageEnd { role } ==> projected(signal) == Some(
            AcpEventView::MessageEnd { role: role@ },
        ),
        signal matches LoopSignal::MessageUpdate { stream } ==> match stream {
            StreamEvent::TextDelta(delta) => if delta@.len() > 0 {
                projected(signal) == Some(
                    AcpEventView::AssistantDelta { thinking: false, delta: delta@ },
                )
            } else {
                projected(signal) is None
            },
            StreamEvent::ThinkingDelta(delta) => if delta@.len() > 0 {
                projected(signal) == Some(
                    AcpEventView::AssistantDelta { thinking: true, delta: delta@ },
                )
            } else {
                projected(signal) is None
            },
            _ => projected(signal) is None,
        },
        signal matches LoopSignal::ToolExecutionStart { tool_call_id, tool_name, args }
            ==> projected(signal) == Some(
            AcpEventView::ToolExecutionStart {
                tool_call_id: tool_call_id@,
                tool_name: tool_name@,
                args: args@,
            },
        ),
        signal matches LoopSignal::ToolExecutionEnd { tool_call_id, tool_name, result, is_error }
            ==> projected(signal) == Some(
            AcpEventView::ToolExecutionEnd {
                tool_call_id: tool_call_id@,
                tool_name: tool_name@,
                result: result@,
                is_error,
            },
        ),
        signal is Other ==> projected(signal) is None,
{
}

/// A turn failed exactly where its newest answer is its own and ended in an error,
/// and then with that answer's error.
pub proof fn law_new_failures_are_reported(
    messages: Seq<TranscriptMessage>,
    message: TranscriptMessage,
    boundary: Seq<KeyView>,
)
    ensures
        message matches Some(key) ==> newest_key(messages.push(message)) == Some(key@) && keys_of(
            messages.push(message),
        ) == keys_of(messages).push(key@),
        message is None ==> newest_key(messages.push(message)) == newest_key(messages) && keys_of(
            messages.push(message),
        ) == keys_of(messages),
        newest_key(Seq::empty()) is None && keys_of(Seq::empty()).len() == 0,
        newest_key(messages) matches Some(key) ==> (!boundary.contains(key) && key.stop_reason
            == StopReason::Error ==> (match key.error_message {
            Some(error) => failure_of(messages, boundary) == Some(error),
            None => failure_of(messages, boundary) == Some("the model request failed"@),
        })) && (boundary.contains(key) || key.stop_reason != StopReason::Error ==> failure_of(
            messages,
            boundary,
        ) is None),
        newest_key(messages) is None ==> failure_of(messages, boundary) is None,
{
    assert(messages.push(message).drop_last() =~= messages);
}

/// The updates around a turn's end say what they are: the boundary whether a terminal
/// one follows, the completion and the terminal one that nothing is outstanding.
pub proof fn law_updates_say_what_they_are(expected: bool, outcome: PrimeAgentOutcome)
    ensures
        boundary_update(expected, outcome).phase == PrimeAgentEventPhase::ResponseBoundary,
        boundary_update(expected, outcome).outcome == Some(outcome),
        boundary_update(expected, outcome).terminal_quiescence_expected == Some(expected),
        boundary_update(expected, outcome).quiescence is None,
        completion_update().phase == PrimeAgentEventPhase::Event,
        completion_update().outcome is None && completion_update().quiescence == Some(quiet()),
        terminal_update(outcome).phase == PrimeAgentEventPhase::TerminalQuiescence,
        terminal_update(outcome).outcome == Some(outcome) && terminal_update(outcome).quiescence
            == Some(quiet()),
        quiet().outstanding_subagents == 0 && quiet().remaining_autonomous_continuations == 0,
{
}

/// A directory is known exactly where both its device and its inode are.
pub proof fn law_directories_are_known_whole(dev: u64, ino: u64)
    ensures
        dev != 0 && ino != 0 ==> identity(Some((dev, ino))) == Some((dev, ino)),
        dev == 0 || ino == 0 ==> identity(Some((dev, ino))) is None,
        identity(None) is None,
{
}

/// A session is admitted, under an id of its own, exactly where the client brings no tool
/// servers. It stays in its own directory, and the client is told so exactly where it
/// asked for another one.
pub proof fn law_sessions_without_servers_are_admitted(
    result: Result<AdmittedSession, Json>,
    id: JsonView,
    has_mcp_servers: bool,
    requested_cwd: Option<Seq<char>>,
    is_same_cwd: bool,
    actual_cwd: Seq<char>,
)
    requires
        is_admitted(result, id, has_mcp_servers, requested_cwd, is_same_cwd, actual_cwd),
    ensures
        result is Ok <==> !has_mcp_servers,
        result matches Ok(admitted) ==> is_id_text(admitted.session_id@),
        result matches Ok(admitted) ==> (admitted.cwd_mismatch is Some <==> requested_cwd is Some
            && requested_cwd->0.len() > 0 && !is_same_cwd),
        result matches Ok(admitted) ==> (admitted.cwd_mismatch matches Some((requested, actual))
            ==> requested_cwd == Some(requested@) && actual@ == actual_cwd),
        result matches Err(frame) ==> frame@.carries("id"@, id),
{
    broadcast use group_members;

}

/// A request is taken exactly where its method is known; else its error names the very
/// method, under the request's own id.
pub proof fn law_known_requests_are_taken(
    result: Result<AcpMethod, Json>,
    id: JsonView,
    method: Seq<char>,
)
    requires
        is_request(result, id, method),
    ensures
        result matches Ok(got) ==> method_of(method) == Some(got),
        result is Err <==> method_of(method) is None,
        result matches Err(frame) ==> frame@.carries("id"@, id),
{
    broadcast use group_members;

}

/// A prompt runs only for a session that is hosted, that does not close and that runs no
/// other turn, and every such prompt runs unless it was cancelled before.
pub proof fn law_hosted_prompts_run(
    state: ConnectionView,
    admission: PromptAdmission,
    session_id: Seq<char>,
)
    requires
        ConnectionState::is_prompt_admission(state, admission, session_id),
    ensures
        state.session is None ==> admission is Refuse,
        state.session_close_in_flight ==> admission is Refuse,
        state.session matches Some(entry) ==> (entry.prompt_running ==> admission is Refuse),
        admission is Run <==> (state.session matches Some(entry) && !entry.prompt_running
            && !entry.cancel_requested && !state.session_close_in_flight),
        admission is Cancelled <==> (state.session matches Some(entry) && !entry.prompt_running
            && entry.cancel_requested && !state.session_close_in_flight),
{
}

/// A close is for the hosted session alone, and one close runs at a time; the place is
/// given up whether the close was taken or refused, unless another one runs.
pub proof fn law_closes_are_for_the_hosted_session(
    before: ConnectionView,
    after: ConnectionView,
    admission: CloseAdmission,
    session_id: Seq<char>,
)
    requires
        ConnectionState::is_close_admission(before, after, admission, session_id),
    ensures
        admission is Close <==> !before.session_close_in_flight && (before.session matches Some(
            entry,
        ) && entry.id == session_id),
        admission matches CloseAdmission::Close { prompt_running } ==> prompt_running
            == before.session->0.prompt_running,
        before.session_close_in_flight ==> after == before,
        !before.session_close_in_flight ==> after.session is None && (after.session_close_in_flight
            <==> admission is Close),
        admission matches CloseAdmission::Refuse(message) ==> message@ == (
        if before.session_close_in_flight {
            "ACP session is already closing: "@ + session_id
        } else {
            "Unknown ACP session: "@ + session_id
        }),
{
}

/// The answer to an admitted session names the session, and tells what there is to tell
/// of it.
pub proof fn law_admitted_sessions_are_named(
    id: JsonView,
    session_id: Seq<char>,
    meta: Option<Json>,
)
    ensures
        new_session_json(id, session_id, meta).carries("id"@, id),
        exists|result: JsonView| #[trigger]
            new_session_json(id, session_id, meta).carries("result"@, result) && result.carries(
                "sessionId"@,
                JsonView::Str(session_id),
            ) && (meta matches Some(meta) ==> result.carries("_meta"@, meta@)),
{
    broadcast use group_members;

    let result = JsonView::object().field("sessionId"@, JsonView::Str(session_id)).field_opt(
        "_meta"@,
        opt_view(meta),
    );
    assert(new_session_json(id, session_id, meta).carries("result"@, result));
}

/// A notification cancels a turn exactly where it is a cancellation of the hosted session
/// whose turn runs and was not cancelled before; any other changes nothing.
pub proof fn law_cancellations_reach_their_session(
    before: ConnectionView,
    after: ConnectionView,
    cancels: bool,
    method: Seq<char>,
    session_id: Seq<char>,
)
    requires
        ConnectionState::is_notified(before, after, cancels, method, session_id),
    ensures
        cancels <==> method == "session/cancel"@ && (before.session matches Some(entry) && entry.id
            == session_id && entry.prompt_running && !entry.cancel_requested),
        cancels ==> (after.session matches Some(entry) && entry.cancel_requested && entry.id
            == session_id && entry.prompt_running),
        !cancels ==> after == before,
        after.session_close_in_flight == before.session_close_in_flight
            && after.session_new_in_flight == before.session_new_in_flight,
{
}

/// Two directories are the same where their canonical paths are, or where both are known
/// by device and inode and agree in both; nothing else makes them the same.
pub proof fn law_directories_are_told_apart(
    requested: Seq<char>,
    actual: Seq<char>,
    requested_metadata: Option<(u64, u64)>,
    actual_metadata: Option<(u64, u64)>,
)
    ensures
        requested == actual ==> is_same_directory(
            requested,
            actual,
            requested_metadata,
            actual_metadata,
        ),
        requested != actual && is_same_directory(
            requested,
            actual,
            requested_metadata,
            actual_metadata,
        ) ==> requested_metadata == actual_metadata && (requested_metadata matches Some((dev, ino))
            && dev != 0 && ino != 0),
        requested_metadata matches Some((dev, ino)) ==> (dev != 0 && ino != 0 && actual_metadata
            == Some((dev, ino)) ==> is_same_directory(
            requested,
            actual,
            requested_metadata,
            actual_metadata,
        )),
{
}

/// A turn's update is sent in its own phase with its own outcome.
pub proof fn law_updates_are_sent_as_they_are(update: TurnUpdate)
    ensures
        update is ResponseBoundary <==> update_of(update).phase
            == PrimeAgentEventPhase::ResponseBoundary,
        update is Completion <==> update_of(update).phase == PrimeAgentEventPhase::Event,
        update is TerminalQuiescence <==> update_of(update).phase
            == PrimeAgentEventPhase::TerminalQuiescence,
        update matches TurnUpdate::ResponseBoundary { terminal_expected, outcome } ==> (update_of(
            update,
        ).outcome == Some(outcome) && update_of(update).terminal_quiescence_expected == Some(
            terminal_expected,
        )),
        update matches TurnUpdate::TerminalQuiescence { outcome } ==> update_of(update).outcome
            == Some(outcome),
{
}

/// A prompt is admitted exactly where its blocks could be read, with all their text and
/// all their images.
pub proof fn law_prompts_are_admitted_whole(
    result: Result<AdmittedPrompt, Json>,
    id: JsonView,
    blocks: Result<(String, Vec<ImageContent>), String>,
)
    requires
        AdmittedPrompt::is_parsed(result, id, blocks),
    ensures
        result is Ok <==> blocks is Ok,
        blocks matches Ok((text, images)) ==> result->Ok_0.text == text && result->Ok_0.images
            == images,
        result matches Err(frame) ==> frame@.carries("id"@, id),
{
    broadcast use group_members;

}

} // verus!
