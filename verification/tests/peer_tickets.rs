//! Tickets for direct attachment.
use pa_daemon::json::Json;
use pa_daemon::peer_tickets::{
    effective_worker_state, grant_registration, handle_get_direct_worker_transport,
    issue_direct_transport, mint_grant, require_available_worker_client, settle_transport,
    TransportFacts, PEER_TRANSPORT_GRANT_TTL_MS,
};
use pa_daemon::protocol::{response_failure, response_success};
use pa_daemon::socket::SocketIdentity;
use pa_daemon::supervisor::DaemonWorkerLifecycle as L;

#[test]
fn minted_grants_expire_in_ten_seconds_and_are_unique() {
    let now = 1_700_000_000_000;
    let first = mint_grant("inst-1", "abc123", now, 42);
    let second = mint_grant("inst-1", "abc123", now, 42);
    assert_ne!(first.grant_id, second.grant_id);
    assert_ne!(first.token, second.token);
    assert_eq!(first.purpose, "session_client");
    assert_eq!(first.worker_instance_id, "inst-1");
    assert_eq!(first.active_session_id, "abc123");
    let expires = first.expires_at_ms;
    assert!(
        expires > now && expires <= now + PEER_TRANSPORT_GRANT_TTL_MS,
        "expiry inside the 10s TTL window: {expires} vs {now}"
    );
    assert_eq!(first.issuer_generation, "sup:42");
    assert_eq!(first.grant_id.len(), 36);
    assert_eq!(first.token.len(), 32);
}

#[test]
fn worker_states_match_ts_names() {
    assert_eq!(effective_worker_state(true, &L::Ready, true), "stopping");
    assert_eq!(effective_worker_state(true, &L::Failed, false), "failed");
    assert_eq!(
        effective_worker_state(false, &L::Ready, false),
        "recovering"
    );
    assert_eq!(effective_worker_state(true, &L::Ready, false), "ready");
    assert_eq!(
        effective_worker_state(true, &L::Starting, false),
        "starting"
    );
    assert_eq!(
        effective_worker_state(false, &L::Recovering, false),
        "recovering"
    );
}

fn facts() -> TransportFacts {
    TransportFacts {
        stopping: false,
        peer_transport_capable: true,
        connected: true,
        lifecycle: L::Ready,
        worker_instance_id: Some("inst-1".to_string()),
        process_alive: true,
        socket_identity: Some(SocketIdentity { dev: 1, ino: 2 }),
    }
}

#[test]
fn tickets_pin_a_live_worker() {
    assert_eq!(
        issue_direct_transport(facts()),
        Ok(("inst-1".to_string(), SocketIdentity { dev: 1, ino: 2 }))
    );
    let refusal = |change: fn(&mut TransportFacts)| {
        let mut facts = facts();
        change(&mut facts);
        issue_direct_transport(facts).unwrap_err()
    };
    assert_eq!(refusal(|f| f.stopping = true), "Supervisor is shutting down");
    assert_eq!(
        refusal(|f| f.peer_transport_capable = false),
        "Session worker does not support direct peer transport"
    );
    assert_eq!(
        refusal(|f| f.connected = false),
        "Session worker is recovering"
    );
    assert_eq!(
        refusal(|f| f.worker_instance_id = Some(String::new())),
        "Direct transport requires an exact worker process identity"
    );
    assert_eq!(
        refusal(|f| f.worker_instance_id = None),
        "Direct transport requires an exact worker process identity"
    );
    assert_eq!(
        refusal(|f| f.process_alive = false),
        "Direct transport worker process identity is not current"
    );
    assert_eq!(
        refusal(|f| f.socket_identity = None),
        "Direct transport requires an exact worker socket identity"
    );
    assert!(require_available_worker_client(true, L::Ready, false).is_ok());
}

#[test]
fn registered_grants_become_tickets() {
    let grant = mint_grant("inst-1", "abc123", 5, 42);
    let registration = grant_registration(&grant, "2026-01-01T00:00:10Z");
    assert_eq!(
        registration.get_str("type"),
        Some("worker_register_peer_transport")
    );
    let written = registration.get("grant").unwrap();
    assert_eq!(written.get_str("grantId"), Some(grant.grant_id.as_str()));
    assert_eq!(written.get_str("expiresAt"), Some("2026-01-01T00:00:10Z"));
    let (grant_id, token) = (grant.grant_id.clone(), grant.token.clone());
    let identity = SocketIdentity { dev: 1, ino: 2 };
    let ticket = settle_transport(
        &response_success(None, "worker_register_peer_transport", None),
        grant,
        "/w.sock".to_string(),
        identity,
    )
    .unwrap();
    assert_eq!((ticket.grant_id, ticket.token), (grant_id, token));
    assert_eq!(ticket.expires_at_ms, 10_005);
    assert_eq!(ticket.socket_path, "/w.sock");
    let refused = settle_transport(
        &response_failure(None, "x", "expired", None),
        mint_grant("i", "a", 5, 42),
        "/w.sock".to_string(),
        identity,
    );
    assert_eq!(refused.unwrap_err(), "expired");
    let answer = handle_get_direct_worker_transport("c1", "get_direct_worker_transport", Ok(Json::Null));
    assert!(answer.success);
    let answer = handle_get_direct_worker_transport(
        "c1",
        "get_direct_worker_transport",
        Err("no".to_string()),
    );
    assert_eq!(answer.error.as_deref(), Some("no"));
}
