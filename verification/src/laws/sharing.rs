//! Laws of what processes share: workers over one file, messages, tickets, leases,
//! sockets and paths.
use vstd::prelude::*;

use crate::create_reuse::{
    first_of, is_reused, is_stop_look, may_live, owner_conflict, reuse_class, reuse_plan,
    reused_path, DaemonSessionLifecycle, PlanView, ResidentWorker, ReuseClass, ReuseRoute,
    STOP_SETTLE_POLL_MS, StopSettle,
};
use crate::json::{group_members, law_put_then_get, or_empty, or_null, Json, JsonView};
use crate::lease::{
    canonical_of, enables_leases, guard_decision, holds_lease, is_guard_step, is_owner, is_wanted,
    last_step, lease_dir_named, lease_dir_of, met, names_owner, non_empty, owner_session,
    right_step, sibling_of, GUARD_ATTEMPTS, GuardStep, GuardTry, LeaseOwner, LeaseStep, RenameTry,
    SessionAlreadyActiveError, SessionLease, STALE_GUARD_MS,
};
use crate::mcp_connections::{
    connections_answer, connections_json, listable_of, listed, shown, wait_look, Connection,
    RosterRead, SESSION_BUILD_POLL_MS, SessionWait,
};
use crate::messaging::{
    client_json, delivery_answer, delivery_json, is_sender, message_failure, message_plan,
    session_sender, MessagePlanView,
};
use crate::paths::{first_chars, hex_digit, hex_of, joined, text_digest};
use crate::peer_tickets::{
    is_availability, is_issued, is_ticket, registration_json, ticket_answer, transport_refusal,
    worker_state, DaemonPeerTransportTicket, DaemonWorkerPeerGrant, TransportFacts,
};
use crate::platform::paths::{
    id_bytes, socket_dir_of, uid_in_lines, worker_pipe_named, worker_socket_named, SocketIdentity,
};
use crate::protocol::{CommandKind, DaemonResponse};
use crate::roster_activity::{
    delta_json, frame_triggers, is_roster_trigger, tags_trigger, PayloadTags,
};
use crate::socket::{first_look, is_removed, stale_look, PathState, PrepareView, StaleLook};
use crate::supervisor::{labels_of, resolved, DaemonWorkerLifecycle, WorkerLabels};
use crate::text::{decimal, opt_text, starts_with, words};
use crate::worker::FrameView;

verus! {

/// A worker is ready exactly where it is connected with its session and is not on
/// its way out, and one on its way out is only waited for.
pub proof fn law_workers_are_classed_by_their_state(resident: ResidentWorker)
    ensures
        reuse_class(resident) == ReuseClass::Stopping <==> resident.stopping || resident.retired,
        reuse_class(resident) == ReuseClass::Ready <==> !resident.stopping && !resident.retired
            && resident.connected && resident.session_ready,
        reuse_class(resident) == ReuseClass::Waitable <==> !resident.stopping && !resident.retired
            && !(resident.connected && resident.session_ready),
{
}

proof fn lemma_first_is_first(residents: Seq<ResidentWorker>, class: ReuseClass)
    ensures
        match first_of(residents, class) {
            Some(i) => 0 <= i < residents.len() && reuse_class(residents[i]) == class
                && forall|j: int| 0 <= j < i ==> reuse_class(#[trigger] residents[j]) != class,
            None => forall|j: int|
                0 <= j < residents.len() ==> reuse_class(#[trigger] residents[j]) != class,
        },
    decreases residents.len(),
{
    if residents.len() > 0 {
        let before = residents.drop_last();
        lemma_first_is_first(before, class);
        assert forall|j: int| 0 <= j < before.len() implies before[j] == residents[j] by {}
    }
}

/// A create is answered by the first ready worker of its file, else by the first
/// that is coming back, else it waits for the first that stops; a worker that
/// another client owns is refused to a client that wants the session for itself.
pub proof fn law_creates_take_the_best_worker(
    residents: Seq<ResidentWorker>,
    lifecycle: Option<DaemonSessionLifecycle>,
    client: Seq<char>,
    path: Seq<char>,
)
    ensures
        ({
            let plan = reuse_plan(residents, lifecycle, client, path);
            &&& plan matches PlanView::Reuse { at } ==> 0 <= at < residents.len()
                && owner_conflict(residents[at], lifecycle, client, path) is None && reuse_class(
                residents[at],
            ) != ReuseClass::Stopping && (forall|j: int|
                0 <= j < at ==> reuse_class(#[trigger] residents[j]) != reuse_class(residents[at]))
                && (reuse_class(residents[at]) == ReuseClass::Waitable ==> forall|j: int|
                0 <= j < residents.len() ==> reuse_class(#[trigger] residents[j])
                    != ReuseClass::Ready)
            &&& plan matches PlanView::AwaitStop { at } ==> 0 <= at < residents.len()
                && reuse_class(residents[at]) == ReuseClass::Stopping && forall|j: int|
                0 <= j < at ==> reuse_class(#[trigger] residents[j]) != ReuseClass::Stopping
        }),
{
    lemma_first_is_first(residents, ReuseClass::Ready);
    lemma_first_is_first(residents, ReuseClass::Waitable);
    lemma_first_is_first(residents, ReuseClass::Stopping);
}

/// A create is refused a worker exactly where it wants the session for its own
/// client and another client owns the worker.
pub proof fn law_only_other_owners_refuse(
    resident: ResidentWorker,
    lifecycle: Option<DaemonSessionLifecycle>,
    client: Seq<char>,
    path: Seq<char>,
)
    ensures
        owner_conflict(resident, lifecycle, client, path) is Some <==> lifecycle == Some(
            DaemonSessionLifecycle::ClientOwned,
        ) && resident.descriptor.owner_client_id is Some
            && resident.descriptor.owner_client_id->0@ != client,
        owner_conflict(resident, lifecycle, client, path) matches Some(message) ==> message
            == "Session is already active in "@ + resident.descriptor.root_active_session_id@ + ": "@
            + path,
{
}

/// A message is delivered exactly where its target, and its source where it names
/// one, are found and differ, and then to the very ones that are found.
pub proof fn law_messages_are_delivered_to_their_target(
    id: Seq<char>,
    kind: CommandKind,
    wire: JsonView,
    workers: Seq<WorkerLabels>,
)
    ensures
        ({
            let plan = message_plan(id, kind, wire, workers);
            let found = resolved(
                labels_of(workers),
                or_empty(wire.get_str("targetActiveSessionId"@)),
            );
            let from = wire.get_str("fromActiveSessionId"@);
            &&& plan matches MessagePlanView::FromClient { target } ==> found == Ok::<
                int,
                Seq<char>,
            >(target) && from is None
            &&& plan matches MessagePlanView::FromSession { source, target } ==> found == Ok::<
                int,
                Seq<char>,
            >(target) && from is Some && resolved(labels_of(workers), from->0) == Ok::<
                int,
                Seq<char>,
            >(source) && source != target
            &&& kind == CommandKind::SendMessage && from is None && found is Ok ==> plan
                is FromClient
            &&& kind == CommandKind::SendMessage && from is Some && found is Ok && resolved(
                labels_of(workers),
                from->0,
            ) is Ok && resolved(labels_of(workers), from->0) != found ==> plan is FromSession
            &&& kind != CommandKind::SendMessage ==> plan is Answer
            &&& plan matches MessagePlanView::Answer(answer) ==> !answer.success && answer.id
                == Some(id) && answer.command == "send_message"@
        }),
{
}

/// What is delivered is the message as it was sent, to the target it was sent to,
/// from the sender it came from.
pub proof fn law_messages_are_delivered_whole(wire: JsonView, sender: JsonView)
    ensures
        ({
            let delivery = delivery_json(wire, sender);
            &&& delivery.carries("type"@, JsonView::Str("worker_deliver_message"@))
            &&& delivery.carries(
                "message"@,
                JsonView::Str(or_empty(wire.get_str("message"@))),
            )
            &&& delivery.carries(
                "targetActiveSessionId"@,
                JsonView::Str(or_empty(wire.get_str("targetActiveSessionId"@))),
            )
            &&& delivery.carries("sender"@, sender)
            &&& wire.get("deliveryMode"@) matches Some(mode) ==> (mode != JsonView::Null
                ==> delivery.carries("deliveryMode"@, mode))
        }),
{
    broadcast use group_members;

}

/// A session's message names the session it is from, and the client behind it.
pub proof fn law_senders_are_named(summary: JsonView, client: Seq<char>)
    ensures
        ({
            let sender = session_sender(summary, client);
            &&& sender.carries("clientId"@, JsonView::Str(client))
            &&& sender.carries("sessionId"@, or_null(summary.get("sessionId"@)))
            &&& summary.get("activeSessionId"@) matches Some(id) ==> sender.carries(
                "activeSessionId"@,
                id,
            )
            &&& summary.get("activeSessionId"@) is None ==> sender.carries(
                "activeSessionId"@,
                or_null(summary.get("id"@)),
            )
            &&& summary.get("runtimeKind"@) matches Some(kind) ==> sender.carries(
                "runtimeKind"@,
                kind,
            )
            &&& summary.get("runtimeKind"@) is None ==> sender.carries(
                "runtimeKind"@,
                JsonView::Str("top-level"@),
            )
            &&& summary.get_str("sessionName"@) matches Some(name) ==> (name.len() > 0
                ==> sender.carries("sessionName"@, JsonView::Str(name)))
        }),
        !message_failure(client, client).success && message_failure(client, client).error == Some(
            client,
        ),
{
    broadcast use group_members;

}

/// A worker is shown as ready exactly where it takes clients.
pub proof fn law_worker_states_are_told(
    connected: bool,
    lifecycle: DaemonWorkerLifecycle,
    stopping: bool,
)
    ensures
        stopping ==> worker_state(connected, lifecycle, stopping) == "stopping"@,
        !stopping && lifecycle == DaemonWorkerLifecycle::Failed ==> worker_state(
            connected,
            lifecycle,
            stopping,
        ) == "failed"@,
        !stopping && connected && lifecycle == DaemonWorkerLifecycle::Ready ==> worker_state(
            connected,
            lifecycle,
            stopping,
        ) == "ready"@,
        !stopping && (!connected && lifecycle == DaemonWorkerLifecycle::Ready || lifecycle
            == DaemonWorkerLifecycle::Recovering) ==> worker_state(connected, lifecycle, stopping)
            == "recovering"@,
        !stopping && lifecycle == DaemonWorkerLifecycle::Starting ==> worker_state(
            connected,
            lifecycle,
            stopping,
        ) == "starting"@,
        lifecycle == DaemonWorkerLifecycle::Stopping ==> worker_state(
            connected,
            lifecycle,
            stopping,
        ) == "stopping"@,
{
}

/// A grant is registered with its worker exactly as it was minted.
pub proof fn law_grants_are_registered_whole(grant: DaemonWorkerPeerGrant, expires: Seq<char>)
    ensures
        exists|registered: JsonView|
            #![trigger registration_json(grant, expires).carries("grant"@, registered)]
            registration_json(grant, expires).carries("grant"@, registered) && registered.carries(
                "grantId"@,
                JsonView::Str(grant.grant_id@),
            ) && registered.carries("token"@, JsonView::Str(grant.token@)) && registered.carries(
                "expiresAt"@,
                JsonView::Str(expires),
            ) && registered.carries("purpose"@, JsonView::Str(grant.purpose@))
                && registered.carries(
                "workerInstanceId"@,
                JsonView::Str(grant.worker_instance_id@),
            ) && registered.carries(
                "activeSessionId"@,
                JsonView::Str(grant.active_session_id@),
            ) && registered.carries(
                "issuerGeneration"@,
                JsonView::Str(grant.issuer_generation@),
            ),
        registration_json(grant, expires).carries(
            "type"@,
            JsonView::Str("worker_register_peer_transport"@),
        ),
{
    broadcast use group_members;

    let registered = JsonView::object().field("grantId"@, JsonView::Str(grant.grant_id@)).field(
        "token"@,
        JsonView::Str(grant.token@),
    ).field("expiresAt"@, JsonView::Str(expires)).field(
        "purpose"@,
        JsonView::Str(grant.purpose@),
    ).field("workerInstanceId"@, JsonView::Str(grant.worker_instance_id@)).field(
        "activeSessionId"@,
        JsonView::Str(grant.active_session_id@),
    ).field("issuerGeneration"@, JsonView::Str(grant.issuer_generation@));
    assert(registration_json(grant, expires).carries("grant"@, registered));
}

/// A ticket that is not given is refused for the first thing that stands in its way.
pub proof fn law_tickets_are_refused_in_order(facts: TransportFacts)
    ensures
        facts.stopping ==> transport_refusal(facts) == Some("Supervisor is shutting down"@),
        !facts.stopping && !facts.peer_transport_capable ==> transport_refusal(facts) == Some(
            "Session worker does not support direct peer transport"@,
        ),
        !facts.stopping && facts.peer_transport_capable && !(facts.connected && facts.lifecycle
            == DaemonWorkerLifecycle::Ready) ==> transport_refusal(facts) == Some(
            "Session worker is "@ + worker_state(facts.connected, facts.lifecycle, false),
        ),
        !facts.stopping && facts.peer_transport_capable && facts.connected && facts.lifecycle
            == DaemonWorkerLifecycle::Ready && facts.worker_instance_id is None
            ==> transport_refusal(facts) == Some(
            "Direct transport requires an exact worker process identity"@,
        ),
{
}

/// The servers whose tools are listed are the connected generic ones, in order.
pub proof fn law_connected_servers_are_listed(roster: Seq<Connection>)
    ensures
        listable_of(roster) == roster.filter(
            |connection: Connection| connection.connected && connection.generic,
        ).map_values(|connection: Connection| connection.server@),
    decreases roster.len(),
{
    reveal(Seq::filter);
    let listable = |connection: Connection| connection.connected && connection.generic;
    let server = |connection: Connection| connection.server@;
    if roster.len() > 0 {
        law_connected_servers_are_listed(roster.drop_last());
        let before = roster.drop_last().filter(listable);
        if listable(roster.last()) {
            assert(before.push(roster.last()).map_values(server) =~= before.map_values(server).push(
                roster.last().server@,
            ));
        }
    } else {
        assert(roster.filter(listable).map_values(server) =~= Seq::empty());
    }
}

/// A connection is shown with the tools and the error that its own server was
/// listed with, and keeps everything else it was shown by.
pub proof fn law_connections_show_their_own_tools(
    connection: Connection,
    listing: Seq<JsonView>,
    item: JsonView,
    key: Seq<char>,
)
    requires
        connection.entry@ is Object,
    ensures
        item.get_str("server"@) == Some(connection.server@) ==> listed(
            listing.push(item),
            connection.server@,
        ) == Some(item),
        item.get_str("server"@) != Some(connection.server@) ==> listed(
            listing.push(item),
            connection.server@,
        ) == listed(listing, connection.server@),
        listed(Seq::empty(), connection.server@) is None,
        listed(listing, connection.server@) matches Some(found) ==> shown(connection, listing).get(
            "tools"@,
        ) == Some(or_null(found.get("tools"@))) && shown(connection, listing).get("error"@) == Some(
            or_null(found.get("error"@)),
        ),
        key != "tools"@ && key != "error"@ ==> shown(connection, listing).get(key)
            == connection.entry@.get(key),
{
    assert(listing.push(item).drop_last() =~= listing);
    reveal_strlit("tools");
    reveal_strlit("error");
    assert("tools"@[0] == 't' && "error"@[0] == 'e');
    let (tools, error) = match listed(listing, connection.server@) {
        Some(item) => (or_null(item.get("tools"@)), or_null(item.get("error"@))),
        None => (JsonView::Null, JsonView::Null),
    };
    let with_tools = connection.entry@.put("tools"@, tools);
    law_put_then_get(connection.entry@, "tools"@, tools, key);
    law_put_then_get(with_tools, "error"@, error, "tools"@);
    law_put_then_get(with_tools, "error"@, error, key);
}

/// An owner loses its lease only where it is provably gone: its process does not
/// run, or is another one than the owner was.
pub proof fn law_only_gone_owners_lose_their_lease(
    running: Option<bool>,
    recorded: Option<Seq<char>>,
    current: Option<Seq<char>>,
)
    ensures
        !holds_lease(running, recorded, current) <==> running == Some(false) || (running == Some(
            true,
        ) && recorded is Some && current is Some && recorded->0 != current->0),
{
}

/// A lease is held exactly after a rename that went through, reclaimed only from an
/// owner that does not hold it, and refused only for one that does, by name.
pub proof fn law_leases_go_to_one(
    step: LeaseStep,
    path: Seq<char>,
    tried: RenameTry,
    error: SessionAlreadyActiveError,
    owner: Option<LeaseOwner>,
)
    ensures
        right_step(step, path, tried) ==> (step is Held <==> tried is Renamed) && (step is Retry
            <==> tried is NotFound) && (step is Fail <==> tried is Failed) && (step is Refuse <==> (
        tried matches RenameTry::Exists { owner: holder, alive } && holder is Some && alive)) && (
        step is Reclaim <==> (tried matches RenameTry::Exists { owner: holder, alive } && !(holder
            is Some && alive))),
        last_step(step, path, tried) ==> (step is Refuse <==> (tried matches RenameTry::Exists {
            owner: holder,
            alive,
        } && holder is Some && alive)) && (step is Refuse || step is GiveUp) && (
        step matches LeaseStep::GiveUp(message) ==> message@ == "Could not acquire session lease: "@
            + path),
        names_owner(error, path, owner) ==> error.session_path@ == path && (owner_session(owner)
            matches Some(id) ==> error.owner@ == id) && (owner_session(owner) is None
            ==> error.owner@ == "another process"@) && opt_text(error.active_session_id)
            == non_empty(owner_session(owner)),
        owner matches Some(holder) ==> owner_session(owner) == opt_text(holder.active_session_id),
        met(owner, true) is Renamed <==> owner is None,
        non_empty(Some(path)) is Some <==> path.len() > 0,
        path.len() > 0 ==> non_empty(Some(path)) == Some(path),
{
}

/// A guard is taken where it is free, taken over only from a holder that is long
/// gone, and else waited for.
pub proof fn law_guards_are_waited_for(attempt: u32, age: Option<u64>)
    ensures
        guard_decision(attempt, GuardTry::Created) == GuardStep::Acquired,
        guard_decision(attempt, GuardTry::Failed) == GuardStep::Fail,
        age is Some && age->0 > STALE_GUARD_MS ==> guard_decision(
            attempt,
            GuardTry::Held { age_ms: age },
        ) == GuardStep::RemoveStale,
        age is None || age->0 <= STALE_GUARD_MS ==> (guard_decision(
            attempt,
            GuardTry::Held { age_ms: age },
        ) matches GuardStep::Pause { ms } && 10 <= ms < 15 && ms == 10 + attempt % 5),
{
}

/// The canonical path of a file is its own canonical form where it is there, else
/// its name in its directory's, else itself.
pub proof fn law_canonical_forms_are_taken(
    path: Seq<char>,
    canonical: Seq<char>,
    parent: Seq<char>,
    name: Seq<char>,
    other: Option<Seq<char>>,
)
    ensures
        canonical_of(path, Some(canonical), other, other) == canonical,
        canonical_of(path, None, Some(parent), Some(name)) == joined(parent, name),
        canonical_of(path, None, None, other) == path,
        lease_dir_of(parent, path) == lease_dir_named(parent, text_digest(path)),
        forall|digest: Seq<u8>| #[trigger]
            lease_dir_named(parent, digest) == joined(
                joined(parent, "session-leases"@),
                hex_of(digest) + ".lock"@,
            ),
        forall|pid: u32| #[trigger]
            sibling_of(path, name, pid, canonical) == path + name + decimal(pid as nat) + "-"@
                + canonical,
{
}

/// A release is this lease's own exactly where its token is found.
pub proof fn law_only_own_leases_are_released(lease: SessionLease, owner: Option<LeaseOwner>)
    ensures
        lease.is_owner(owner) <==> owner is Some && owner->0.token@ == lease.token@,
{
}

/// A path that is free is taken, one that a peer answers on or that is no socket is
/// refused, and a silent socket is watched until it is gone, answers, is made anew
/// or stayed silent for the whole wait.
pub proof fn law_only_dead_sockets_are_taken_over(
    path: Seq<char>,
    identity: SocketIdentity,
    other: SocketIdentity,
)
    ensures
        first_look(path, PathState::Nothing, true) == PrepareView::Free,
        first_look(path, PathState::Nothing, false) == PrepareView::Free,
        first_look(path, PathState::NotASocket, false) == PrepareView::Refuse(
            "Daemon socket path exists and is not a socket: "@ + path,
        ),
        first_look(path, PathState::Socket(identity), true) == PrepareView::Refuse(
            "Daemon socket already in use: "@ + path,
        ),
        first_look(path, PathState::Socket(identity), false) == PrepareView::Watch(identity),
        stale_look(path, identity, StaleLook::Gone) == PrepareView::Free,
        stale_look(path, identity, StaleLook::DeadlinePassed) == PrepareView::Remove,
        stale_look(path, identity, StaleLook::There { identity, answers: false })
            == PrepareView::Watch(identity),
        stale_look(path, identity, StaleLook::There { identity, answers: true })
            == PrepareView::Refuse("Daemon socket already in use: "@ + path),
        other != identity ==> stale_look(
            path,
            identity,
            StaleLook::There { identity: other, answers: false },
        ) == PrepareView::Refuse(
            "Daemon socket changed ownership while waiting for cleanup: "@ + path,
        ),
{
}

/// Sockets lie in a directory of their user, and are named by the supervisor's key
/// and the start of the worker's id.
pub proof fn law_sockets_are_named(
    uid: Seq<char>,
    tmp: Seq<char>,
    key: Seq<char>,
    worker: Seq<char>,
)
    ensures
        socket_dir_of(Some(uid), Some(tmp)) == joined(tmp, "prime-agent-"@ + uid),
        socket_dir_of(None, Some(tmp)) == joined(tmp, "prime-agent-"@ + "user"@),
        socket_dir_of(Some(uid), None) == joined("/tmp"@, "prime-agent-"@ + uid),
        worker_socket_named(key, worker) == "worker-"@ + key + "-"@
            + crate::platform::paths::id_prefix(worker) + ".sock"@,
        worker_pipe_named(key, worker) == "\\\\.\\pipe\\prime-agent-worker-"@ + key + "-"@
            + crate::platform::paths::id_prefix(worker),
        id_bytes(worker) <= 12 && id_bytes(worker) <= vstd::utf8::encode_utf8(worker).len(),
        vstd::utf8::encode_utf8(worker).len() >= 12 ==> id_bytes(worker) == 12,
        vstd::utf8::encode_utf8(worker).len() < 12 ==> id_bytes(worker)
            == vstd::utf8::encode_utf8(worker).len(),
{
}

/// A user id is the first word behind the mark of the first line that has both.
pub proof fn law_user_ids_are_read(lines: Seq<Seq<char>>, line: Seq<char>)
    ensures
        ({
            let marked = starts_with(line, "Uid:"@) && words(
                line.skip("Uid:"@.len() as int),
            ).len() > 0;
            &&& marked ==> uid_in_lines(seq![line] + lines) == Some(
                words(line.skip("Uid:"@.len() as int))[0],
            )
            &&& !marked ==> uid_in_lines(seq![line] + lines) == uid_in_lines(lines)
            &&& uid_in_lines(Seq::empty()) is None
        }),
{
    let all = seq![line] + lines;
    assert(all[0] == line);
    assert(all.drop_first() =~= lines);
}

/// An absolute path stands for itself below any directory, and any other lies in
/// the directory with one separator between.
pub proof fn law_paths_are_joined(dir: Seq<char>, name: Seq<char>)
    ensures
        name.len() > 0 && name[0] == '/' ==> joined(dir, name) == name,
        (name.len() == 0 || name[0] != '/') && dir.len() > 0 && dir.last() != '/' ==> joined(
            dir,
            name,
        ) == dir + seq!['/'] + name,
        (name.len() == 0 || name[0] != '/') && dir.len() > 0 && dir.last() == '/' ==> joined(
            dir,
            name,
        ) == dir + name,
        name.len() == 0 || name[0] != '/' ==> joined(Seq::empty(), name) == name,
{
    assert(dir.push('/') =~= dir + seq!['/']);
    assert(Seq::<char>::empty() + name =~= name);
}

/// A byte is written by its two hexadecimal digits, and two runs of bytes are
/// written alike exactly where they are the same.
pub proof fn law_bytes_are_written_in_hex(left: Seq<u8>, right: Seq<u8>)
    ensures
        hex_of(left).len() == 2 * left.len(),
        hex_of(left) == hex_of(right) <==> left == right,
        hex_digit(0) == '0' && hex_digit(9) == '9' && hex_digit(10) == 'a' && hex_digit(15) == 'f',
    decreases left.len() + right.len(),
{
    lemma_hex_len(left);
    lemma_hex_len(right);
    if left.len() > 0 && right.len() > 0 {
        law_bytes_are_written_in_hex(left.drop_last(), right.drop_last());
        if hex_of(left) == hex_of(right) {
            let a = hex_of(left);
            let b = hex_of(right);
            assert(a.drop_last().drop_last() =~= hex_of(left.drop_last()));
            assert(b.drop_last().drop_last() =~= hex_of(right.drop_last()));
            assert(a.last() == b.last());
            assert(a[a.len() - 2] == b[b.len() - 2]);
            lemma_hex_digit((left.last() / 16) as nat, (right.last() / 16) as nat);
            lemma_hex_digit((left.last() % 16) as nat, (right.last() % 16) as nat);
            assert(left.last() == right.last());
            assert(left =~= left.drop_last().push(left.last()));
            assert(right =~= right.drop_last().push(right.last()));
        }
    }
    if left.len() == 0 && right.len() == 0 {
        assert(left =~= right);
    }
}

proof fn lemma_hex_len(bytes: Seq<u8>)
    ensures
        hex_of(bytes).len() == 2 * bytes.len(),
    decreases bytes.len(),
{
    if bytes.len() > 0 {
        lemma_hex_len(bytes.drop_last());
    }
}

proof fn lemma_hex_digit(a: nat, b: nat)
    requires
        a < 16,
        b < 16,
        hex_digit(a) == hex_digit(b),
    ensures
        a == b,
{
}

/// The start of a text is as long as asked for, and the whole text where that is
/// shorter.
pub proof fn law_starts_are_cut(text: Seq<char>, len: nat)
    ensures
        text.len() <= len ==> first_chars(text, len) == text,
        text.len() > len ==> first_chars(text, len) == text.take(len as int),
{
}

/// A worker reports on every status line, and on the events that change what it
/// does; nothing else makes it report.
pub proof fn law_workers_report_what_they_do(
    frame: FrameView,
    tags: PayloadTags,
    event: Seq<char>,
)
    ensures
        frame.outbound_type == "session_status"@ ==> frame_triggers(frame, None) && frame_triggers(
            frame,
            Some(tags),
        ),
        frame.outbound_type == "session_event"@ ==> !frame_triggers(frame, None) && (frame_triggers(
            frame,
            Some(tags),
        ) <==> tags_trigger(tags.kind@, opt_text(tags.event_kind))),
        frame.outbound_type != "session_status"@ && frame.outbound_type != "session_event"@
            ==> !frame_triggers(frame, Some(tags)),
        tags_trigger("session_closed"@, None) && tags_trigger("session_replaced"@, None),
        is_roster_trigger(event) ==> tags_trigger(tags.kind@, Some(event)),
        !is_roster_trigger(event) && tags.kind@ != "session_closed"@ && tags.kind@
            != "session_replaced"@ ==> !tags_trigger(tags.kind@, Some(event)),
        is_roster_trigger("turn_start"@) && is_roster_trigger("turn_end"@) && is_roster_trigger(
            "message_end"@,
        ) && is_roster_trigger("tool_execution_start"@) && is_roster_trigger(
            "tool_execution_end"@,
        ) && is_roster_trigger("compaction_start"@) && is_roster_trigger("compaction_end"@)
            && is_roster_trigger("auto_retry_start"@) && is_roster_trigger("auto_retry_end"@)
            && is_roster_trigger("bash_start"@) && is_roster_trigger("bash_end"@)
            && is_roster_trigger("session_action_update"@) && is_roster_trigger(
            "session_info_changed"@,
        ) && is_roster_trigger("thinking_level_changed"@),
{
    reveal_strlit("session_status");
    reveal_strlit("session_event");
    assert("session_status"@.len() == 14);
    assert("session_event"@.len() == 13);
}

/// A create that found a worker is answered with the very state that the worker gave,
/// and launches one of its own exactly where that worker went away; any other worker
/// refuses it, under the session's own file.
pub proof fn law_reused_workers_answer_with_their_state(
    result: Result<Option<Json>, String>,
    route: ReuseRoute,
    resident: ResidentWorker,
    session_path: Seq<char>,
)
    requires
        is_reused(result, route, resident, session_path),
    ensures
        result == Ok::<Option<Json>, String>(None) <==> route is NotConnected,
        result matches Ok(Some(state)) ==> (route matches ReuseRoute::Answered(response)
            && response.success && response@.data == Some(state@)),
        route matches ReuseRoute::Answered(response) ==> (result is Ok <==> response.success
            && response@.data is Some && response@.data->0 is Object),
        route is Failed ==> result is Err,
        result matches Err(message) ==> ("Session \""@ + session_path).is_prefix_of(message@),
{
    let named = "Session \""@ + session_path;
    if let Err(message) = result {
        assert(named =~= message@.subrange(0, named.len() as int));
    }
}

/// A live worker is looked for exactly by the file of a create that names one and wants
/// a session.
pub proof fn law_creates_look_for_their_file(kind: CommandKind, wire: JsonView)
    ensures
        reused_path(kind, wire) matches Some(path) ==> kind == CommandKind::Create && wire.get_str(
            "sessionPath"@,
        ) == Some(path) && wire.get_bool("noSession"@) != Some(true),
        reused_path(kind, wire) is None ==> kind != CommandKind::Create || wire.get_str(
            "sessionPath"@,
        ) is None || wire.get_bool("noSession"@) == Some(true),
{
}

/// An open launches as soon as the stopping worker left the registry or its process
/// died, and not before; it is refused exactly where the worker outlasts the wait.
pub proof fn law_opens_wait_for_a_stop(
    step: StopSettle,
    registered: bool,
    process_alive: bool,
    deadline_passed: bool,
    session_path: Seq<char>,
)
    requires
        is_stop_look(step, registered, process_alive, deadline_passed, session_path),
    ensures
        step == StopSettle::Launch <==> !(registered && process_alive),
        step is Refuse <==> registered && process_alive && deadline_passed,
        step matches StopSettle::Sleep { ms } ==> 0 < ms <= STOP_SETTLE_POLL_MS,
        step matches StopSettle::Refuse { message } ==> message@ == "Session \""@ + session_path
            + "\" worker is stopping"@,
{
}

/// A ticket opens what its grant grants, on the socket it was made for, and there is one
/// exactly where the worker took the grant; a worker that refused is quoted.
pub proof fn law_tickets_open_their_grant(
    result: Result<DaemonPeerTransportTicket, String>,
    response: DaemonResponse,
    grant: DaemonWorkerPeerGrant,
    socket_path: String,
    socket_identity: SocketIdentity,
)
    requires
        is_ticket(result, response, grant, socket_path, socket_identity),
    ensures
        result is Ok <==> response.success,
        result matches Ok(ticket) ==> ticket.token == grant.token && ticket.grant_id
            == grant.grant_id && ticket.expires_at_ms == grant.expires_at_ms && ticket.purpose
            == grant.purpose && ticket.worker_instance_id == grant.worker_instance_id
            && ticket.active_session_id == grant.active_session_id && ticket.socket_path
            == socket_path && ticket.socket_identity == socket_identity,
        result matches Err(message) ==> (response@.error matches Some(error) ==> message@ == error),
        result matches Err(message) ==> (response@.error is None ==> message@
            == "Peer transport grant is invalid"@),
{
}

/// A message is sent exactly where its worker took it, with what the worker said; else
/// the sender is told why it was not, by the worker's own words where it has any.
pub proof fn law_senders_are_told_of_the_delivery(
    command_id: Seq<char>,
    routed: Result<DaemonResponse, String>,
)
    ensures
        ({
            let answer = delivery_answer(command_id, routed);
            &&& answer.id == Some(command_id) && answer.command == "send_message"@
            &&& answer.success <==> routed is Ok && routed->Ok_0.success
            &&& routed matches Err(error) ==> answer.error == Some(error@)
            &&& routed matches Ok(response) ==> (response.success ==> answer.data == response@.data)
            &&& routed matches Ok(response) ==> (!response.success ==> (
            response@.error matches Some(error) ==> answer.error == Some(error)))
            &&& routed matches Ok(response) ==> (!response.success && response@.error is None
                ==> answer.error == Some("delivery failed"@))
        }),
{
}

/// A session sends under the state it reports, and only a session that reports one
/// sends; a client that is no session sends under its own name.
pub proof fn law_senders_report_their_state(
    result: Result<Json, String>,
    state: Result<DaemonResponse, String>,
    client_id: Seq<char>,
)
    requires
        is_sender(result, state, client_id),
    ensures
        result is Ok <==> state is Ok && state->Ok_0.success && state->Ok_0@.data is Some,
        result matches Ok(sender) ==> sender@ == session_sender(state->Ok_0@.data->0, client_id),
        state matches Err(error) ==> result->Err_0@ == error@,
        state matches Ok(response) ==> (!response.success ==> (response@.error matches Some(error)
            ==> result->Err_0@ == error)),
        client_json(client_id).carries("clientId"@, JsonView::Str(client_id)),
{
    broadcast use group_members;

}

/// Leases are in use for exactly three values of their variable, and not without one.
pub proof fn law_leases_are_turned_on(value: Seq<char>)
    ensures
        enables_leases(Some(value)) <==> value == "1"@ || value == "true"@ || value == "yes"@,
        !enables_leases(None),
{
}

/// The owner of a lease is the process, session and file that it was taken for, under
/// its own token.
pub proof fn law_owners_are_who_took_the_lease(
    owner: LeaseOwner,
    token: Seq<char>,
    pid: u32,
    process_start_id: Option<String>,
    active_session_id: Option<String>,
    canonical: Seq<char>,
    now: Seq<char>,
)
    requires
        is_owner(owner, token, pid, process_start_id, active_session_id, canonical, now),
    ensures
        owner.token@ == token && owner.pid == pid && owner.process_start_id == process_start_id
            && owner.active_session_id == active_session_id && owner.session_path@ == canonical
            && owner.created_at@ == now && owner.version == 1,
{
}

/// A socket file is removed only where it is there, and never where it is known to be
/// another than the one that was made.
pub proof fn law_only_own_sockets_are_removed(
    exists: bool,
    identity: SocketIdentity,
    current: Option<SocketIdentity>,
)
    ensures
        is_removed(exists, None, current) <==> exists,
        is_removed(exists, Some(identity), current) <==> exists && current == Some(identity),
{
}

/// The session lists its tools exactly where it was had in time and is built; past the
/// deadline it is given up whatever else holds.
pub proof fn law_sessions_are_waited_for(deadline_passed: bool, locked: bool, built: bool)
    ensures
        wait_look(deadline_passed, locked, built) == SessionWait::GiveUp <==> deadline_passed
            || !locked,
        wait_look(deadline_passed, locked, built) == SessionWait::Use <==> !deadline_passed
            && locked && built,
        wait_look(deadline_passed, locked, built) matches SessionWait::Poll { ms } ==> 0 < ms
            <= SESSION_BUILD_POLL_MS,
{
}

/// The connections are answered exactly where the roster could be read, with every
/// connection of it; a session that is not created is refused as it is.
pub proof fn law_read_rosters_are_answered(read: RosterRead, listing: Seq<JsonView>)
    ensures
        read matches RosterRead::Read(roster) ==> connections_answer(read, listing).success
            && connections_answer(read, listing).data == Some(connections_json(roster@, listing)),
        read matches RosterRead::NotCreated(response) ==> connections_answer(read, listing)
            == response@,
        read is NoManager || read is Failed ==> !connections_answer(read, listing).success,
        read matches RosterRead::Failed(error) ==> connections_answer(read, listing).error == Some(
            "MCP roster read failed: "@ + error@,
        ),
        read is NoManager ==> connections_answer(read, listing).error == Some(
            "MCP connections are not available in this session"@,
        ),
{
}

/// A worker that was never spawned is not alive, and any other is unless its process is
/// known to be gone.
pub proof fn law_unknown_processes_count_as_alive(resident: ResidentWorker, alive: bool)
    ensures
        resident.descriptor.pid == 0 ==> !may_live(resident, None) && !may_live(
            resident,
            Some(alive),
        ),
        resident.descriptor.pid != 0 ==> may_live(resident, None) && (may_live(
            resident,
            Some(alive),
        ) <==> alive),
{
}

/// A lease is tried for exactly where leases are on and the session has a file.
pub proof fn law_leases_are_for_files(path: Seq<char>, enabled: bool)
    ensures
        is_wanted(Some(path), enabled) <==> enabled && path.len() > 0,
        !is_wanted(None, enabled),
{
}

/// The guard is given up past its last try, under its directory, and not before.
pub proof fn law_guards_are_given_up_last(
    step: GuardStep,
    directory: Seq<char>,
    attempt: u32,
    tried: GuardTry,
)
    requires
        is_guard_step(step, directory, attempt, tried),
    ensures
        attempt >= GUARD_ATTEMPTS ==> (step matches GuardStep::GiveUp(message) && message@
            == "Could not coordinate session lease: "@ + directory),
        attempt < GUARD_ATTEMPTS ==> !(step is GiveUp),
        attempt < GUARD_ATTEMPTS && tried is Created ==> step == GuardStep::Acquired,
        attempt < GUARD_ATTEMPTS && tried is Failed ==> step == GuardStep::Fail,
{
}

/// A worker takes clients exactly where it is connected and ready and does not stop.
pub proof fn law_ready_workers_take_clients(
    result: Result<(), String>,
    connected: bool,
    lifecycle: DaemonWorkerLifecycle,
    stopping: bool,
)
    requires
        is_availability(result, connected, lifecycle, stopping),
    ensures
        result is Ok <==> connected && lifecycle == DaemonWorkerLifecycle::Ready && !stopping,
        result matches Err(message) ==> "Session worker is "@.is_prefix_of(message@),
{
    let named = "Session worker is "@;
    if let Err(message) = result {
        assert(named =~= message@.subrange(0, named.len() as int));
    }
}

/// A ticket pins the very process and socket that are there, and is given exactly to a
/// ready and connected worker of a supervisor that goes on, one that can speak to peers,
/// that is alive and whose process and socket are known.
pub proof fn law_tickets_pin_what_is_there(
    result: Result<(String, SocketIdentity), String>,
    facts: TransportFacts,
)
    requires
        is_issued(result, facts),
    ensures
        result is Ok <==> !facts.stopping && facts.peer_transport_capable && facts.connected
            && facts.lifecycle == DaemonWorkerLifecycle::Ready && facts.worker_instance_id is Some
            && facts.worker_instance_id->0@.len() > 0 && facts.process_alive
            && facts.socket_identity is Some,
        result matches Ok((instance, identity)) ==> facts.worker_instance_id == Some(instance)
            && facts.socket_identity == Some(identity),
{
}

/// A request for a ticket is answered with the ticket, or with the reason there is none.
pub proof fn law_ticket_requests_are_answered(
    command_id: Seq<char>,
    command_type: Seq<char>,
    ticket: Result<Json, String>,
)
    ensures
        ticket_answer(command_id, command_type, ticket).id == Some(command_id),
        ticket_answer(command_id, command_type, ticket).command == command_type,
        ticket matches Ok(ticket) ==> ticket_answer(command_id, command_type, Ok(ticket)).success
            && ticket_answer(command_id, command_type, Ok(ticket)).data == Some(ticket@),
        ticket matches Err(message) ==> !ticket_answer(command_id, command_type, ticket).success
            && ticket_answer(command_id, command_type, ticket).error == Some(message@),
{
}

/// A worker reports its own summary under its own token.
pub proof fn law_reports_carry_the_summary(worker_token: Seq<char>, summary: JsonView)
    ensures
        delta_json(worker_token, summary).carries("type"@, JsonView::Str("worker_roster_delta"@)),
        delta_json(worker_token, summary).carries("workerToken"@, JsonView::Str(worker_token)),
        delta_json(worker_token, summary).carries("summary"@, summary),
{
    broadcast use group_members;

}

} // verus!
