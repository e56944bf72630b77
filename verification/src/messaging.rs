//! Messages between sessions: who may send them, what is delivered, and how the
//! sender is answered.
use vstd::prelude::*;

use crate::json::{or_empty, or_null, Json, JsonView};
use crate::protocol::{
    failure, response_failure, response_success, success, CommandKind, DaemonCommand,
    DaemonResponse, ResponseView,
};
use crate::supervisor::{labels_of, resolve_worker, resolved, WorkerLabels};
use crate::text::{concat2, is_empty_text};

verus! {

/// How long the worker round trips of a message may take.
pub const WORKER_REQUEST_TIMEOUT_MS: u64 = 30_000;

/// What is done with a message.
#[derive(Debug, PartialEq, Eq)]
pub enum MessagePlan {
    /// The sender is answered at once.
    Answer(DaemonResponse),
    /// It is delivered to the target from the client.
    FromClient { target: usize },
    /// It is delivered to the target from the source's session.
    FromSession { source: usize, target: usize },
}

/// The mathematical plan behind a [`MessagePlan`].
#[verifier::ext_equal]
pub enum MessagePlanView {
    Answer(ResponseView),
    FromClient { target: int },
    FromSession { source: int, target: int },
}

impl View for MessagePlan {
    type V = MessagePlanView;

    open spec fn view(&self) -> MessagePlanView {
        match self {
            MessagePlan::Answer(response) => MessagePlanView::Answer(response@),
            MessagePlan::FromClient { target } => MessagePlanView::FromClient {
                target: *target as int,
            },
            MessagePlan::FromSession { source, target } => MessagePlanView::FromSession {
                source: *source as int,
                target: *target as int,
            },
        }
    }
}

/// The failure of a message.
pub open spec fn message_failure(command_id: Seq<char>, error: Seq<char>) -> ResponseView {
    failure(Some(command_id), "send_message"@, error)
}

/// What is done with a message: the source is looked up first, then the target,
/// and a session cannot send to itself.
pub open spec fn message_plan(
    command_id: Seq<char>,
    kind: CommandKind,
    wire: JsonView,
    workers: Seq<WorkerLabels>,
) -> MessagePlanView {
    let labels = labels_of(workers);
    let from = wire.get_str("fromActiveSessionId"@);
    let to = or_empty(wire.get_str("targetActiveSessionId"@));
    if kind != CommandKind::SendMessage {
        MessagePlanView::Answer(message_failure(command_id, "invalid command"@))
    } else if from is Some && resolved(labels, from->0) is Err {
        MessagePlanView::Answer(
            message_failure(command_id, "Unknown active session: "@ + from->0),
        )
    } else {
        match resolved(labels, to) {
            Err(_) => MessagePlanView::Answer(
                message_failure(command_id, "Unknown active session: "@ + to),
            ),
            Ok(target) => match from {
                None => MessagePlanView::FromClient { target },
                Some(from) => {
                    let source = resolved(labels, from)->Ok_0;
                    if source == target {
                        MessagePlanView::Answer(
                            message_failure(
                                command_id,
                                "Agent messaging cannot target the sending session"@,
                            ),
                        )
                    } else {
                        MessagePlanView::FromSession { source, target }
                    }
                },
            },
        }
    }
}

fn refuse_message(command_id: &str, error: &str) -> (r: MessagePlan)
    ensures
        r@ == MessagePlanView::Answer(message_failure(command_id@, error@)),
{
    MessagePlan::Answer(response_failure(Some(command_id), "send_message", error, None))
}

/// What is done with a message.
pub fn handle_send_message(
    command_id: &str,
    command: &DaemonCommand,
    workers: &Vec<WorkerLabels>,
) -> (r: MessagePlan)
    ensures
        r@ == message_plan(command_id@, command.kind, command.wire@, workers@),
{
    if command.kind != CommandKind::SendMessage {
        return refuse_message(command_id, "invalid command");
    }
    let from = command.wire.get_str("fromActiveSessionId");
    let mut source: Option<usize> = None;
    match from {
        Some(from) => match resolve_worker(workers, from) {
            Ok(at) => {
                source = Some(at);
            },
            Err(_) => {
                return refuse_message(
                    command_id,
                    concat2("Unknown active session: ", from).as_str(),
                );
            },
        },
        None => {},
    }
    let to = command.wire.get_string_or_empty("targetActiveSessionId");
    let target = match resolve_worker(workers, to.as_str()) {
        Ok(target) => target,
        Err(_) => {
            return refuse_message(
                command_id,
                concat2("Unknown active session: ", to.as_str()).as_str(),
            );
        },
    };
    match source {
        Some(source) => {
            if source == target {
                refuse_message(command_id, "Agent messaging cannot target the sending session")
            } else {
                MessagePlan::FromSession { source, target }
            }
        },
        None => MessagePlan::FromClient { target },
    }
}

/// A sender that is a client and no session.
pub open spec fn client_json(client_id: Seq<char>) -> JsonView {
    JsonView::object().field("clientId"@, JsonView::Str(client_id))
}

/// The sender of a client's message.
pub fn client_sender(client_id: &str) -> (r: Json)
    ensures
        r@ == client_json(client_id@),
{
    Json::object().field("clientId", Json::string(client_id))
}

/// The sender of a session's message: what the session's state says of it.
pub open spec fn session_sender(summary: JsonView, client_id: Seq<char>) -> JsonView {
    let sender = JsonView::object().field(
        "activeSessionId"@,
        match summary.get("activeSessionId"@) {
            Some(id) => id,
            None => or_null(summary.get("id"@)),
        },
    ).field("sessionId"@, or_null(summary.get("sessionId"@))).field(
        "runtimeKind"@,
        match summary.get("runtimeKind"@) {
            Some(kind) => kind,
            None => JsonView::Str("top-level"@),
        },
    ).field("clientId"@, JsonView::Str(client_id));
    match summary.get_str("sessionName"@) {
        Some(name) if name.len() > 0 => sender.field("sessionName"@, JsonView::Str(name)),
        _ => sender,
    }
}

/// Whether a sender, or the refusal of one, is what the state of a session gives.
pub open spec fn is_sender(
    result: Result<Json, String>,
    state: Result<DaemonResponse, String>,
    client_id: Seq<char>,
) -> bool {
    match state {
        Err(error) => result is Err && result->Err_0@ == error@,
        Ok(response) => if !response.success {
            result is Err && result->Err_0@ == (match response@.error {
                Some(error) => error,
                None => "source state unavailable"@,
            })
        } else {
            match response@.data {
                None => result is Err && result->Err_0@ == "source session state unavailable"@,
                Some(summary) => result is Ok && result->Ok_0@ == session_sender(summary, client_id),
            }
        },
    }
}

/// The sender of a session's message, out of the session's state or the failure
/// to read it.
pub fn sender_endpoint(state: Result<DaemonResponse, String>, client_id: &str) -> (r: Result<
    Json,
    String,
>)
    ensures
        is_sender(r, state, client_id@),
{
    let response = match state {
        Ok(response) => response,
        Err(error) => {
            return Err(error);
        },
    };
    if !response.success {
        return Err(
            match response.error {
                Some(error) => error,
                None => "source state unavailable".to_owned(),
            },
        );
    }
    let summary = match response.data {
        Some(summary) => summary,
        None => {
            return Err("source session state unavailable".to_owned());
        },
    };
    let active = match summary.get("activeSessionId") {
        Some(id) => id.duplicate(),
        None => summary.get_or_null("id"),
    };
    let kind = match summary.get("runtimeKind") {
        Some(kind) => kind.duplicate(),
        None => Json::string("top-level"),
    };
    let sender = Json::object().field("activeSessionId", active).field(
        "sessionId",
        summary.get_or_null("sessionId"),
    ).field("runtimeKind", kind).field("clientId", Json::string(client_id));
    match summary.get_str("sessionName") {
        Some(name) => {
            if is_empty_text(name) {
                Ok(sender)
            } else {
                Ok(sender.field("sessionName", Json::string(name)))
            }
        },
        None => Ok(sender),
    }
}

/// What the target's worker is given.
pub open spec fn delivery_json(wire: JsonView, sender: JsonView) -> JsonView {
    JsonView::object().field("type"@, JsonView::Str("worker_deliver_message"@)).field(
        "targetActiveSessionId"@,
        JsonView::Str(or_empty(wire.get_str("targetActiveSessionId"@))),
    ).field("message"@, JsonView::Str(or_empty(wire.get_str("message"@)))).field(
        "sender"@,
        sender,
    ).field_opt("deliveryMode"@, crate::supervisor::non_null(wire.get("deliveryMode"@)))
}

/// What the target's worker is given.
pub fn delivery_payload(command: &DaemonCommand, sender: Json) -> (r: Json)
    ensures
        r@ == delivery_json(command.wire@, sender@),
{
    let mode = match command.wire.get("deliveryMode") {
        Some(mode) => if mode.is_null() {
            None
        } else {
            Some(mode.duplicate())
        },
        None => None,
    };
    Json::object().field("type", Json::string("worker_deliver_message")).field(
        "targetActiveSessionId",
        Json::string(command.wire.get_string_or_empty("targetActiveSessionId").as_str()),
    ).field("message", Json::string(command.wire.get_string_or_empty("message").as_str())).field(
        "sender",
        sender,
    ).field_opt("deliveryMode", mode)
}

/// The answer to a message by how its delivery went.
pub open spec fn delivery_answer(
    command_id: Seq<char>,
    routed: Result<DaemonResponse, String>,
) -> ResponseView {
    match routed {
        Err(error) => message_failure(command_id, error@),
        Ok(response) => if response.success {
            success(Some(command_id), "send_message"@, response@.data)
        } else {
            message_failure(
                command_id,
                match response@.error {
                    Some(error) => error,
                    None => "delivery failed"@,
                },
            )
        },
    }
}

/// How the sender is answered: with what the target's worker said, or with the
/// failure to reach it.
pub fn settle_delivery(command_id: &str, routed: Result<DaemonResponse, String>) -> (r:
    DaemonResponse)
    ensures
        r@ == delivery_answer(command_id@, routed),
{
    match routed {
        Ok(response) => {
            if response.success {
                return response_success(Some(command_id), "send_message", response.data);
            }
            match response.error {
                Some(error) => response_failure(
                    Some(command_id),
                    "send_message",
                    error.as_str(),
                    None,
                ),
                None => response_failure(Some(command_id), "send_message", "delivery failed", None),
            }
        },
        Err(error) => response_failure(Some(command_id), "send_message", error.as_str(), None),
    }
}

/// A message never goes back to the session it came from, and nothing is
/// delivered for a source or a target that no worker answers to.
pub proof fn law_messages_reach_another_session(
    command_id: Seq<char>,
    kind: CommandKind,
    wire: JsonView,
    workers: Seq<WorkerLabels>,
)
    ensures
        ({
            let plan = message_plan(command_id, kind, wire, workers);
            let from = wire.get_str("fromActiveSessionId"@);
            let to = or_empty(wire.get_str("targetActiveSessionId"@));
            &&& plan matches MessagePlanView::FromSession { source, target } ==> source != target
            &&& resolved(labels_of(workers), to) is Err ==> plan is Answer
            &&& from is Some && resolved(labels_of(workers), from->0) is Err ==> plan is Answer
        }),
{
}

} // verus!
