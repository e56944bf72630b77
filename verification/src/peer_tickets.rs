//! Tickets by which a client attaches to a session's worker directly: when they
//! are given, and the single-use grant behind each.
use vstd::prelude::*;

use crate::ids::{fresh_id, fresh_token};
use crate::json::{Json, JsonView};
use crate::platform::paths::SocketIdentity;
use crate::protocol::{
    failure, response_failure, response_success, success, DaemonResponse, ResponseView,
};
use crate::supervisor::{generation_of, supervisor_generation, DaemonWorkerLifecycle};
use crate::text::{concat2, is_empty_text};

verus! {

/// How long a grant is valid.
pub const PEER_TRANSPORT_GRANT_TTL_MS: u64 = 10_000;

/// How long the registration of a grant may take.
pub const GRANT_REGISTRATION_TIMEOUT_MS: u64 = 3_000;

/// What a worker is doing: stopping before anything else, then failed, then
/// recovering where it is ready but not connected, and else its lifecycle.
pub open spec fn worker_state(
    connected: bool,
    lifecycle: DaemonWorkerLifecycle,
    stopping: bool,
) -> Seq<char> {
    if stopping {
        "stopping"@
    } else {
        match lifecycle {
            DaemonWorkerLifecycle::Failed => "failed"@,
            DaemonWorkerLifecycle::Ready => if connected {
                "ready"@
            } else {
                "recovering"@
            },
            DaemonWorkerLifecycle::Starting => "starting"@,
            DaemonWorkerLifecycle::Recovering => "recovering"@,
            DaemonWorkerLifecycle::Stopping => "stopping"@,
        }
    }
}

/// What a worker is doing.
pub fn effective_worker_state(
    connected: bool,
    lifecycle: &DaemonWorkerLifecycle,
    stopping: bool,
) -> (r: &'static str)
    ensures
        r@ == worker_state(connected, *lifecycle, stopping),
{
    if stopping {
        "stopping"
    } else if *lifecycle == DaemonWorkerLifecycle::Failed {
        "failed"
    } else if *lifecycle == DaemonWorkerLifecycle::Ready && !connected {
        "recovering"
    } else {
        match lifecycle {
            DaemonWorkerLifecycle::Starting => "starting",
            DaemonWorkerLifecycle::Ready => "ready",
            DaemonWorkerLifecycle::Recovering => "recovering",
            DaemonWorkerLifecycle::Stopping => "stopping",
            DaemonWorkerLifecycle::Failed => "failed",
        }
    }
}

/// Whether a verdict says whether a worker takes clients.
pub open spec fn is_availability(
    result: Result<(), String>,
    connected: bool,
    lifecycle: DaemonWorkerLifecycle,
    stopping: bool,
) -> bool {
    match result {
        Ok(_) => connected && lifecycle == DaemonWorkerLifecycle::Ready && !stopping,
        Err(message) => !(connected && lifecycle == DaemonWorkerLifecycle::Ready && !stopping)
            && message@ == "Session worker is "@ + worker_state(connected, lifecycle, stopping),
    }
}

/// Whether a worker takes clients: connected, ready and not stopping.
pub fn require_available_worker_client(
    connected: bool,
    lifecycle: DaemonWorkerLifecycle,
    stopping: bool,
) -> (r: Result<(), String>)
    ensures
        is_availability(r, connected, lifecycle, stopping),
{
    if connected && lifecycle == DaemonWorkerLifecycle::Ready && !stopping {
        Ok(())
    } else {
        Err(concat2("Session worker is ", effective_worker_state(connected, &lifecycle, stopping)))
    }
}

/// A single-use grant for a worker instance and a session.
#[derive(Debug, PartialEq, Eq)]
pub struct DaemonWorkerPeerGrant {
    pub grant_id: String,
    pub token: String,
    pub expires_at_ms: u64,
    pub purpose: String,
    pub worker_instance_id: String,
    pub active_session_id: String,
    pub issuer_generation: String,
}

/// A grant under an id and a token, from a time on.
pub fn grant_for(
    grant_id: String,
    token: String,
    worker_instance_id: &str,
    active_session_id: &str,
    now_ms: u64,
    pid: u32,
) -> (r: DaemonWorkerPeerGrant)
    requires
        now_ms <= u64::MAX - PEER_TRANSPORT_GRANT_TTL_MS,
    ensures
        r.grant_id == grant_id,
        r.token == token,
        r.expires_at_ms == now_ms + PEER_TRANSPORT_GRANT_TTL_MS,
        r.purpose@ == "session_client"@,
        r.worker_instance_id@ == worker_instance_id@,
        r.active_session_id@ == active_session_id@,
        r.issuer_generation@ == generation_of(pid),
{
    DaemonWorkerPeerGrant {
        grant_id,
        token,
        expires_at_ms: now_ms + PEER_TRANSPORT_GRANT_TTL_MS,
        purpose: "session_client".to_owned(),
        worker_instance_id: worker_instance_id.to_owned(),
        active_session_id: active_session_id.to_owned(),
        issuer_generation: supervisor_generation(pid),
    }
}

/// Mint a grant under a fresh id and a fresh token.
pub fn mint_grant(worker_instance_id: &str, active_session_id: &str, now_ms: u64, pid: u32) -> (r:
    DaemonWorkerPeerGrant)
    requires
        now_ms <= u64::MAX - PEER_TRANSPORT_GRANT_TTL_MS,
    ensures
        crate::ids::is_id_text(r.grant_id@),
        crate::ids::is_token_text(r.token@),
        r.expires_at_ms == now_ms + PEER_TRANSPORT_GRANT_TTL_MS,
        r.purpose@ == "session_client"@,
        r.worker_instance_id@ == worker_instance_id@,
        r.active_session_id@ == active_session_id@,
        r.issuer_generation@ == generation_of(pid),
{
    grant_for(fresh_id(), fresh_token(), worker_instance_id, active_session_id, now_ms, pid)
}

/// The command that registers a grant with its worker; the expiry is given as
/// it is written.
pub open spec fn registration_json(grant: DaemonWorkerPeerGrant, expires_at: Seq<char>) -> JsonView {
    JsonView::object().field("type"@, JsonView::Str("worker_register_peer_transport"@)).field(
        "grant"@,
        JsonView::object().field("grantId"@, JsonView::Str(grant.grant_id@)).field(
            "token"@,
            JsonView::Str(grant.token@),
        ).field("expiresAt"@, JsonView::Str(expires_at)).field(
            "purpose"@,
            JsonView::Str(grant.purpose@),
        ).field("workerInstanceId"@, JsonView::Str(grant.worker_instance_id@)).field(
            "activeSessionId"@,
            JsonView::Str(grant.active_session_id@),
        ).field("issuerGeneration"@, JsonView::Str(grant.issuer_generation@)),
    )
}

/// The command that registers a grant with its worker.
pub fn grant_registration(grant: &DaemonWorkerPeerGrant, expires_at: &str) -> (r: Json)
    ensures
        r@ == registration_json(*grant, expires_at@),
{
    Json::object().field("type", Json::string("worker_register_peer_transport")).field(
        "grant",
        Json::object().field("grantId", Json::string(grant.grant_id.as_str())).field(
            "token",
            Json::string(grant.token.as_str()),
        ).field("expiresAt", Json::string(expires_at)).field(
            "purpose",
            Json::string(grant.purpose.as_str()),
        ).field("workerInstanceId", Json::string(grant.worker_instance_id.as_str())).field(
            "activeSessionId",
            Json::string(grant.active_session_id.as_str()),
        ).field("issuerGeneration", Json::string(grant.issuer_generation.as_str())),
    )
}

/// What is known of a worker that a ticket is asked for.
#[derive(Debug, PartialEq, Eq)]
pub struct TransportFacts {
    pub stopping: bool,
    pub peer_transport_capable: bool,
    pub connected: bool,
    pub lifecycle: DaemonWorkerLifecycle,
    pub worker_instance_id: Option<String>,
    /// Whether its process is known to be alive.
    pub process_alive: bool,
    pub socket_identity: Option<SocketIdentity>,
}

/// Why a ticket is not given, where it is not: the first of the conditions in
/// this order that fails.
pub open spec fn transport_refusal(facts: TransportFacts) -> Option<Seq<char>> {
    if facts.stopping {
        Some("Supervisor is shutting down"@)
    } else if !facts.peer_transport_capable {
        Some("Session worker does not support direct peer transport"@)
    } else if !facts.connected || facts.lifecycle != DaemonWorkerLifecycle::Ready {
        Some(
            "Session worker is "@ + worker_state(facts.connected, facts.lifecycle, facts.stopping),
        )
    } else if facts.worker_instance_id is None || facts.worker_instance_id->0@.len() == 0 {
        Some("Direct transport requires an exact worker process identity"@)
    } else if !facts.process_alive {
        Some("Direct transport worker process identity is not current"@)
    } else if facts.socket_identity is None {
        Some("Direct transport requires an exact worker socket identity"@)
    } else {
        None
    }
}

/// Whether identities, or a refusal, are those of a ticket for a worker.
pub open spec fn is_issued(
    result: Result<(String, SocketIdentity), String>,
    facts: TransportFacts,
) -> bool {
    match result {
        Ok((instance, identity)) => transport_refusal(facts) is None && facts.worker_instance_id
            == Some(instance) && facts.socket_identity == Some(identity),
        Err(message) => transport_refusal(facts) == Some(message@),
    }
}

/// Whether a ticket is given for a worker, and the identities it pins.
pub fn issue_direct_transport(facts: TransportFacts) -> (r: Result<
    (String, SocketIdentity),
    String,
>)
    ensures
        is_issued(r, facts),
{
    if facts.stopping {
        return Err("Supervisor is shutting down".to_owned());
    }
    if !facts.peer_transport_capable {
        return Err("Session worker does not support direct peer transport".to_owned());
    }
    match require_available_worker_client(facts.connected, facts.lifecycle, facts.stopping) {
        Ok(_) => {},
        Err(message) => {
            return Err(message);
        },
    }
    let instance = match facts.worker_instance_id {
        Some(instance) => instance,
        None => {
            return Err("Direct transport requires an exact worker process identity".to_owned());
        },
    };
    if is_empty_text(instance.as_str()) {
        return Err("Direct transport requires an exact worker process identity".to_owned());
    }
    if !facts.process_alive {
        return Err("Direct transport worker process identity is not current".to_owned());
    }
    match facts.socket_identity {
        Some(identity) => Ok((instance, identity)),
        None => Err("Direct transport requires an exact worker socket identity".to_owned()),
    }
}

/// What a client needs to attach to a worker directly.
#[derive(Debug, PartialEq, Eq)]
pub struct DaemonPeerTransportTicket {
    pub purpose: String,
    pub socket_path: String,
    pub socket_identity: SocketIdentity,
    pub worker_instance_id: String,
    pub active_session_id: String,
    pub grant_id: String,
    pub token: String,
    pub expires_at_ms: u64,
}

/// Whether a ticket, or its refusal, is that of a grant.
pub open spec fn is_ticket(
    result: Result<DaemonPeerTransportTicket, String>,
    response: DaemonResponse,
    grant: DaemonWorkerPeerGrant,
    socket_path: String,
    socket_identity: SocketIdentity,
) -> bool {
    match result {
        Ok(ticket) => response.success && ticket == (DaemonPeerTransportTicket {
            purpose: grant.purpose,
            socket_path,
            socket_identity,
            worker_instance_id: grant.worker_instance_id,
            active_session_id: grant.active_session_id,
            grant_id: grant.grant_id,
            token: grant.token,
            expires_at_ms: grant.expires_at_ms,
        }),
        Err(message) => !response.success && message@ == match response@.error {
            Some(error) => error,
            None => "Peer transport grant is invalid"@,
        },
    }
}

/// The ticket of a grant that its worker registered; a worker that refused it
/// gives its error, or a general one where it has none.
pub fn settle_transport(
    response: &DaemonResponse,
    grant: DaemonWorkerPeerGrant,
    socket_path: String,
    socket_identity: SocketIdentity,
) -> (r: Result<DaemonPeerTransportTicket, String>)
    ensures
        is_ticket(r, *response, grant, socket_path, socket_identity),
{
    if !response.success {
        return Err(
            match &response.error {
                Some(error) => error.clone(),
                None => "Peer transport grant is invalid".to_owned(),
            },
        );
    }
    Ok(
        DaemonPeerTransportTicket {
            purpose: grant.purpose,
            socket_path,
            socket_identity,
            worker_instance_id: grant.worker_instance_id,
            active_session_id: grant.active_session_id,
            grant_id: grant.grant_id,
            token: grant.token,
            expires_at_ms: grant.expires_at_ms,
        },
    )
}

/// The answer to a request for a ticket.
pub open spec fn ticket_answer(
    command_id: Seq<char>,
    command_type: Seq<char>,
    ticket: Result<Json, String>,
) -> ResponseView {
    match ticket {
        Ok(ticket) => success(Some(command_id), command_type, Some(ticket@)),
        Err(message) => failure(Some(command_id), command_type, message@),
    }
}

/// The answer to a request for a ticket: the ticket as it is written, or the
/// reason there is none.
pub fn handle_get_direct_worker_transport(
    command_id: &str,
    command_type: &str,
    ticket: Result<Json, String>,
) -> (r: DaemonResponse)
    ensures
        r@ == ticket_answer(command_id@, command_type@, ticket),
{
    match ticket {
        Ok(ticket) => response_success(Some(command_id), command_type, Some(ticket)),
        Err(message) => response_failure(Some(command_id), command_type, message.as_str(), None),
    }
}

/// A ticket is given only for a worker that takes clients, whose process is
/// alive and whose process and socket are both known; and for every such worker
/// that can do direct transport it is given.
pub proof fn law_tickets_pin_a_live_worker(facts: TransportFacts)
    ensures
        transport_refusal(facts) is None <==> {
            &&& !facts.stopping
            &&& facts.peer_transport_capable
            &&& worker_state(facts.connected, facts.lifecycle, facts.stopping) == "ready"@
            &&& facts.worker_instance_id is Some
            &&& facts.worker_instance_id->0@.len() > 0
            &&& facts.process_alive
            &&& facts.socket_identity is Some
        },
{
    reveal_strlit("ready");
    reveal_strlit("stopping");
    reveal_strlit("failed");
    reveal_strlit("recovering");
    reveal_strlit("starting");
    assert("ready"@.len() == 5);
    assert("stopping"@.len() == 8);
    assert("failed"@.len() == 6);
    assert("recovering"@.len() == 10);
    assert("starting"@.len() == 8);
}

} // verus!
