//! Laws of what goes between clients and workers.
use vstd::prelude::*;

use crate::json::{group_members, law_put_then_get, or_empty, JsonView};
use crate::protocol::{
    failure, line_of, success, supervisor_line_envelope, wire_name, CommandKind, CommandView,
    ResponseView,
};
use crate::supervisor::{
    after_route, answers_to, attached_after, delivered, dispatch_of, frame_route, handler_for,
    name_refusal, non_null, normalized, rendered, resolved, response_of, route_timeout,
    routed_answer, routed_payload, routing_of, salvaged_id, AfterRoute, DispatchView,
    FrameRouteView, Handler, LabelsView, RouteFailure, RoutingView, LONG_ROUTE_TIMEOUT_MS,
    ROUTE_TIMEOUT_MS,
};
use crate::text::{ends_with, trim};

verus! {

/// A worker's frame goes where its type says: a response answers the request that
/// it names, an event of a session goes on unchanged to the clients it is for, and
/// nothing else leaves the supervisor.
pub proof fn law_frames_go_where_their_type_says(header: JsonView, payload: JsonView)
    ensures
        ({
            let outbound = header.get_str("outboundType"@);
            let route = frame_route(header, Some(payload));
            &&& frame_route(header, None) == FrameRouteView::Ignore
            &&& route is Reply <==> outbound == Some("response"@)
            &&& route is Forward <==> outbound == Some("session_event"@) || outbound == Some(
                "side_question_event"@,
            )
            &&& route matches FrameRouteView::Reply { request_id, response } ==> request_id
                == or_empty(header.get_str("requestId"@)) && (match response_of(payload) {
                Some(spelled) => response == spelled,
                None => !response.success && response.id == Some(request_id),
            })
            &&& route matches FrameRouteView::Forward { routing, payload: sent } ==> sent == payload
                && routing == routing_of(payload)
        }),
{
    reveal_strlit("response");
    reveal_strlit("session_event");
    reveal_strlit("side_question_event");
    assert("response"@.len() == 8);
    assert("session_event"@.len() == 13);
    assert("side_question_event"@.len() == 19);
}

/// An event that names a session is for the clients attached to that session, and
/// only one that names none is for all; a client gets an event exactly where it is
/// for all or for a session the client is attached to.
pub proof fn law_events_reach_their_clients(payload: JsonView, attached: Seq<Seq<char>>)
    ensures
        payload.get_str("activeSessionId"@) matches Some(id) ==> routing_of(payload) == (
        RoutingView::AttachedSession { active_session_id: id }) && (delivered(
            routing_of(payload),
            attached,
        ) <==> attached.contains(id)),
        payload.get_str("activeSessionId"@) is None ==> routing_of(payload)
            == RoutingView::Broadcast && delivered(routing_of(payload), attached),
{
}

/// A worker's response is taken as it spells itself, and only where it names its
/// command and says whether it succeeded.
pub proof fn law_responses_are_taken_as_spelled(payload: JsonView)
    ensures
        response_of(payload) matches Some(response) ==> payload.get_str("command"@) == Some(
            response.command,
        ) && payload.get_bool("success"@) == Some(response.success) && response.id
            == payload.get_str("id"@) && response.error == payload.get_str("error"@)
            && response.data == non_null(payload.get("data"@)) && response.error_info == non_null(
            payload.get("errorInfo"@),
        ),
        payload.get_str("command"@) is None || payload.get_bool("success"@) is None ==> response_of(
            payload,
        ) is None,
        payload.get_str("command"@) is Some && payload.get_bool("success"@) is Some
            && crate::protocol::optional_string(payload, "id"@)
            && crate::protocol::optional_string(payload, "error"@) ==> response_of(payload) is Some,
        non_null(Some(JsonView::Null)) is None,
        forall|value: JsonView| value != JsonView::Null ==> #[trigger] non_null(Some(value)) == Some(
            value,
        ),
{
}

/// A line that was understood is handled as it came and under its own id; an
/// acknowledgement is taken in silence, only a restart or a shutdown closes the
/// daemon, and a client id that the line brings is in force from then on.
pub proof fn law_understood_lines_are_handled(
    parsed: Result<JsonView, Seq<char>>,
    client_id: Seq<char>,
)
    requires
        supervisor_line_envelope(parsed) is Ok,
    ensures
        ({
            let envelope = supervisor_line_envelope(parsed)->Ok_0;
            let kind = envelope.command.kind;
            let (dispatch, after) = dispatch_of(parsed, client_id);
            &&& envelope.client_id matches Some(id) ==> after == id
            &&& envelope.client_id is None ==> after == client_id
            &&& dispatch == DispatchView::Quiet <==> kind == CommandKind::AckResult
            &&& dispatch is Shutdown <==> kind == CommandKind::Restart || kind
                == CommandKind::Shutdown
            &&& dispatch matches DispatchView::Handle { id, command } ==> id == envelope.id
                && command == envelope.command
            &&& kind != CommandKind::AckResult && kind != CommandKind::Restart && kind
                != CommandKind::Shutdown ==> dispatch is Handle
            &&& dispatch matches DispatchView::Shutdown { response, closing } ==> response
                == line_of(success(Some(envelope.id), wire_name(kind), None)) && closing.carries(
                "type"@,
                JsonView::Str("daemon_closing"@),
            ) && closing.carries("reason"@, JsonView::Str("shutdown"@))
        }),
        salvaged_id(Err(client_id)) is None,
        forall|value: JsonView| #[trigger] salvaged_id(Ok(value)) == value.get_str("id"@),
{
    broadcast use group_members;

}

/// Each command goes to its own handler, and any other to the worker it addresses;
/// a listing is one of the saved sessions exactly where all are asked for.
pub proof fn law_commands_go_to_their_handler(command: CommandView)
    ensures
        handler_for(command) == Handler::Create <==> command.kind == CommandKind::Create,
        handler_for(command) == Handler::SendMessage <==> command.kind == CommandKind::SendMessage,
        handler_for(command) == Handler::SavedSessions <==> command.kind
            == CommandKind::ListSavedSessions,
        handler_for(command) == Handler::ListSaved <==> command.kind == CommandKind::List
            && command.wire.get_bool("all"@) == Some(true),
        handler_for(command) == Handler::ListLive <==> command.kind == CommandKind::List
            && command.wire.get_bool("all"@) != Some(true),
        handler_for(command) == Handler::Route <==> command.kind != CommandKind::Create
            && command.kind != CommandKind::SendMessage && command.kind
            != CommandKind::ListSavedSessions && command.kind != CommandKind::List,
{
}

/// Only a command that waits for a turn may take long.
pub proof fn law_only_waiting_commands_take_long(kind: CommandKind)
    ensures
        route_timeout(kind) == LONG_ROUTE_TIMEOUT_MS <==> kind == CommandKind::PromptAndWait || kind
            == CommandKind::WaitForIdle,
        route_timeout(kind) == LONG_ROUTE_TIMEOUT_MS || route_timeout(kind) == ROUTE_TIMEOUT_MS,
{
}

/// A worker is stopped exactly after a kill that succeeded, and relaunched exactly
/// after a retry that did.
pub proof fn law_only_successes_touch_the_worker(kind: CommandKind, succeeded: bool)
    ensures
        after_route(kind, succeeded) == AfterRoute::StopWorker <==> kind == CommandKind::Kill
            && succeeded,
        after_route(kind, succeeded) == AfterRoute::RelaunchWorker <==> kind
            == CommandKind::RetryWorker && succeeded,
{
}

/// A client that attached gets the session's events from then on and keeps those it
/// had; only an attach that succeeded attaches, and only a detach that succeeded
/// detaches.
pub proof fn law_attached_clients_get_the_session(
    kind: CommandKind,
    response: ResponseView,
    worker_id: Seq<char>,
    attached: Seq<Seq<char>>,
    other: Seq<char>,
)
    ensures
        ({
            let after = attached_after(kind, response, worker_id, attached);
            let attaches = kind == CommandKind::Attach || kind == CommandKind::Reattach;
            &&& !response.success ==> after == attached
            &&& !attaches && kind != CommandKind::Detach ==> after == attached
            &&& attaches && attached.contains(other) ==> after.contains(other)
            &&& attaches && response.success && response.data is Some ==> (
            match response.data->0.get_str("activeSessionId"@) {
                Some(id) => after.contains(id),
                None => after.contains(worker_id),
            })
            &&& attaches && after.contains(other) && !attached.contains(other) ==> response.success
                && response.data is Some && (response.data->0.get_str("activeSessionId"@) == Some(
                other,
            ) || (response.data->0.get_str("activeSessionId"@) is None && other == worker_id))
        }),
{
    let id = match response.data {
        Some(data) => match data.get_str("activeSessionId"@) {
            Some(id) => id,
            None => worker_id,
        },
        None => worker_id,
    };
    let pushed = attached.push(id);
    assert(pushed[attached.len() as int] == id);
    if attached.contains(other) {
        let i = choose|i: int| 0 <= i < attached.len() && attached[i] == other;
        assert(pushed[i] == other);
    }
    if pushed.contains(other) && other != id {
        let i = choose|i: int| 0 <= i < pushed.len() && pushed[i] == other;
        assert(attached[i] == other);
    }
}

/// A client is answered under its own request id, with what the worker said or why
/// it said nothing.
pub proof fn law_routed_answers_are_the_workers(
    kind: CommandKind,
    command_id: Seq<char>,
    response: ResponseView,
    error: RouteFailure,
)
    ensures
        routed_answer(kind, command_id, Ok(response)) == line_of(
            ResponseView {
                id: Some(command_id),
                command: response.command,
                success: response.success,
                data: response.data,
                error: response.error,
                error_info: response.error_info,
            },
        ),
        routed_answer(kind, command_id, Err(error)) == line_of(
            failure(Some(command_id), wire_name(kind), error.text()),
        ),
        RouteFailure::NotConnected.text() == "Session worker is not connected"@,
        RouteFailure::Dropped.text() == "Session worker dropped the request"@,
        RouteFailure::TimedOut.text() == "Session worker timed out"@,
{
}

/// A worker learns which client a command is from.
pub proof fn law_routed_commands_name_the_client(command: CommandView, client_id: Seq<char>)
    requires
        command.wire is Object,
        command.wire.get("config"@) is None,
    ensures
        routed_payload(command, client_id).get_str("clientId"@) == Some(client_id),
        command.kind == CommandKind::Attach || command.kind == CommandKind::Reattach
            ==> routed_payload(command, client_id).get("capabilities"@) == Some(
            JsonView::Array(
                seq![
                    JsonView::Str("attach_snapshot"@),
                    JsonView::Str("event_sequence"@),
                    JsonView::Str("slim_attach"@),
                ],
            ),
        ),
        forall|key: Seq<char>|
            key != "clientId"@ && key != "capabilities"@ ==> #[trigger] routed_payload(
                command,
                client_id,
            ).get(key) == command.wire.get(key),
        command.kind != CommandKind::Attach && command.kind != CommandKind::Reattach
            ==> routed_payload(command, client_id).get("capabilities"@) == command.wire.get(
            "capabilities"@,
        ),
{
    reveal_strlit("clientId");
    reveal_strlit("capabilities");
    reveal_strlit("config");
    assert("clientId"@.len() == 8);
    assert("capabilities"@.len() == 12);
    assert("config"@.len() == 6);
    let name = JsonView::Str(client_id);
    let named = command.wire.put("clientId"@, name);
    let powers = crate::supervisor::attach_capabilities();
    law_put_then_get(command.wire, "clientId"@, name, "config"@);
    law_put_then_get(command.wire, "clientId"@, name, "capabilities"@);
    law_put_then_get(named, "capabilities"@, powers, "config"@);
    law_put_then_get(named, "capabilities"@, powers, "clientId"@);
    assert forall|key: Seq<char>|
        key != "clientId"@ && key != "capabilities"@ implies #[trigger] routed_payload(
        command,
        client_id,
    ).get(key) == command.wire.get(key) by {
        law_put_then_get(command.wire, "clientId"@, name, key);
        law_put_then_get(named, "capabilities"@, powers, key);
    }
}

/// A selector is for a worker exactly where it ends the worker's root id or file
/// stem, case and hyphens aside, or is its very name; an empty one is for none.
pub proof fn law_selectors_are_for_their_workers(worker: LabelsView, selector: Seq<char>)
    ensures
        worker.name == selector && selector.len() > 0 ==> answers_to(worker, selector),
        normalized(selector).len() == 0 && worker.name != selector ==> !answers_to(worker, selector),
        answers_to(worker, selector) ==> (worker.name == selector && selector.len() > 0)
            || ends_with(normalized(worker.root_id), normalized(selector)) || ends_with(
            normalized(worker.file_stem),
            normalized(selector),
        ),
        ends_with(normalized(worker.root_id), normalized(selector)) && normalized(selector).len()
            > 0 && normalized(worker.root_id).len() > 0 ==> answers_to(worker, selector),
        ends_with(normalized(worker.file_stem), normalized(selector)) && normalized(selector).len()
            > 0 && normalized(worker.file_stem).len() > 0 ==> answers_to(worker, selector),
{
}

/// A selector that nobody answers to is unknown, and is told so.
pub proof fn law_unknown_selectors_are_told(workers: Seq<LabelsView>, selector: Seq<char>)
    requires
        forall|i: int|
            0 <= i < workers.len() ==> (#[trigger] workers[i]).worker_id != selector && !answers_to(
                workers[i],
                selector,
            ),
    ensures
        resolved(workers, selector) == Err::<int, Seq<char>>(
            "Unknown active session: "@ + selector,
        ),
{
    lemma_no_exact(workers, selector);
    lemma_no_match(workers, selector, workers.len());
}

proof fn lemma_no_exact(workers: Seq<LabelsView>, selector: Seq<char>)
    requires
        forall|i: int|
            0 <= i < workers.len() ==> (#[trigger] workers[i]).worker_id != selector,
    ensures
        crate::supervisor::exact(workers, selector) is None,
    decreases workers.len(),
{
    if workers.len() > 0 {
        let before = workers.drop_last();
        assert forall|i: int| 0 <= i < before.len() implies (#[trigger] before[i]).worker_id
            != selector by {
            assert(before[i] == workers[i]);
        }
        lemma_no_exact(before, selector);
        assert(workers.last() == workers[workers.len() - 1]);
    }
}

proof fn lemma_no_match(workers: Seq<LabelsView>, selector: Seq<char>, n: nat)
    requires
        n <= workers.len(),
        forall|i: int| 0 <= i < workers.len() ==> !answers_to(#[trigger] workers[i], selector),
    ensures
        crate::supervisor::matching(workers, selector, n).len() == 0,
    decreases n,
{
    if n > 0 {
        lemma_no_match(workers, selector, (n - 1) as nat);
        assert(!answers_to(workers[n - 1], selector));
    }
}

/// A worker that an ambiguous selector lists is shown by its root id, with its name
/// where it has one.
pub proof fn law_ambiguous_workers_are_shown(worker: LabelsView)
    ensures
        worker.name.len() == 0 ==> rendered(worker) == worker.root_id,
        worker.name.len() > 0 ==> rendered(worker) == worker.root_id + " ("@ + worker.name + ")"@,
{
}

/// A name may be taken exactly where it is not blank and no live session has it.
pub proof fn law_names_are_taken_once(name: Seq<char>, states: Seq<JsonView>)
    ensures
        name_refusal(name, states) is None <==> trim(name).len() > 0 && forall|i: int|
            0 <= i < states.len() ==> or_empty((#[trigger] states[i]).get_str("sessionName"@))
                != name,
        trim(name).len() == 0 ==> name_refusal(name, states) == Some(
            "Session name cannot be empty"@,
        ),
        trim(name).len() > 0 && name_refusal(name, states) is Some ==> name_refusal(name, states)
            == Some("Session name \""@ + name + "\" is unavailable for depth 0"@),
{
}

} // verus!
