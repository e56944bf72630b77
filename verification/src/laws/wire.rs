//! Laws of the wire protocol.
use vstd::prelude::*;

use crate::json::{group_members, or_empty, JsonView};
use crate::protocol::{
    addresses_session, client_capabilities, command_error, command_of, envelope_client,
    envelope_of, event_json, failure, has_stat_fields, is_envelope, is_meta, kind_of, last_paren,
    law_type_names_round_trip, line_envelope, line_of, meta_json, opened, optional_bool,
    optional_string, protocol_accepted, replay_gap, replay_info, resume_sequence, session_selector,
    start_id_in, status_json, success, supervisor_envelope_of, supervisor_line_envelope,
    supported_among, well_formed, wire_name, CommandKind, CommandView,
    DAEMON_COMMAND_ENVELOPE_MIN_PROTOCOL_VERSION, DAEMON_PROTOCOL_NAME, DAEMON_PROTOCOL_VERSION,
    DaemonEventMeta, DaemonReplayStatus, DaemonResumeCursor, EnvelopeErrorView, ResponseView,
};
use crate::text::{decimal, opt_text, split_on};

verus! {

/// Each command goes by its own name on the wire, and is read back from it.
pub proof fn law_commands_go_by_their_name(kind: CommandKind)
    ensures
        wire_name(CommandKind::List) == "list"@,
        wire_name(CommandKind::ListSavedSessions) == "list_saved_sessions"@,
        wire_name(CommandKind::Create) == "create"@,
        wire_name(CommandKind::Attach) == "attach"@,
        wire_name(CommandKind::Reattach) == "reattach"@,
        wire_name(CommandKind::Detach) == "detach"@,
        wire_name(CommandKind::Kill) == "kill"@,
        wire_name(CommandKind::Rename) == "rename"@,
        wire_name(CommandKind::SetSessionName) == "set_session_name"@,
        wire_name(CommandKind::Prompt) == "prompt"@,
        wire_name(CommandKind::PromptAndWait) == "prompt_and_wait"@,
        wire_name(CommandKind::Steer) == "steer"@,
        wire_name(CommandKind::FollowUp) == "follow_up"@,
        wire_name(CommandKind::Abort) == "abort"@,
        wire_name(CommandKind::WaitForIdle) == "wait_for_idle"@,
        wire_name(CommandKind::GetState) == "get_state"@,
        wire_name(CommandKind::GetSessionHeader) == "get_session_header"@,
        wire_name(CommandKind::GetSessionStats) == "get_session_stats"@,
        wire_name(CommandKind::GetMessages) == "get_messages"@,
        wire_name(CommandKind::GetQueue) == "get_queue"@,
        wire_name(CommandKind::ClearQueue) == "clear_queue"@,
        wire_name(CommandKind::AbortAndClearQueue) == "abort_and_clear_queue"@,
        wire_name(CommandKind::GetLastAssistantText) == "get_last_assistant_text"@,
        wire_name(CommandKind::RetryWorker) == "retry_worker"@,
        wire_name(CommandKind::Restart) == "restart"@,
        wire_name(CommandKind::Shutdown) == "shutdown"@,
        wire_name(CommandKind::AckResult) == "ack_result"@,
        wire_name(CommandKind::StartSideQuestion) == "start_side_question"@,
        wire_name(CommandKind::AbortSideQuestion) == "abort_side_question"@,
        kind != CommandKind::SendMessage ==> kind_of(wire_name(kind)) == Some(kind),
{
    if kind != CommandKind::SendMessage {
        law_type_names_round_trip(kind);
    }
}

/// A command names a session exactly where it is for one, and then by the session
/// that it carries.
pub proof fn law_commands_name_their_session(command: CommandView)
    ensures
        addresses_session(command.kind) <==> command.kind != CommandKind::List && command.kind
            != CommandKind::ListSavedSessions && command.kind != CommandKind::Create && command.kind
            != CommandKind::Detach && command.kind != CommandKind::Restart && command.kind
            != CommandKind::Shutdown && command.kind != CommandKind::AckResult && command.kind
            != CommandKind::SendMessage,
        addresses_session(command.kind) || command.kind == CommandKind::Detach ==> session_selector(
            command,
        ) == command.wire.get_str("activeSessionId"@),
        !addresses_session(command.kind) && command.kind != CommandKind::Detach
            ==> session_selector(command) is None,
{
}

/// A command is taken only with what it needs: the session it is for, the message of
/// a prompt, the name of a rename, the question that is asked, and the target and the
/// text of a message.
pub proof fn law_commands_bring_what_they_need(kind: CommandKind, wire: JsonView)
    requires
        well_formed(kind, wire),
    ensures
        addresses_session(kind) ==> wire.get_str("activeSessionId"@) is Some,
        kind == CommandKind::Prompt || kind == CommandKind::PromptAndWait || kind
            == CommandKind::Steer || kind == CommandKind::FollowUp ==> wire.get_str(
            "message"@,
        ) is Some,
        kind == CommandKind::Rename || kind == CommandKind::SetSessionName ==> wire.get_str(
            "name"@,
        ) is Some,
        kind == CommandKind::StartSideQuestion ==> wire.get_str("sideQuestionId"@) is Some
            && wire.get_str("question"@) is Some,
        kind == CommandKind::AbortSideQuestion ==> wire.get_str("sideQuestionId"@) is Some,
        kind == CommandKind::SendMessage ==> wire.get_str("targetActiveSessionId"@) is Some
            && wire.get_str("message"@) is Some,
        optional_string(wire, "id"@),
{
}

/// A command with everything it needs is taken: any command that names its session
/// and needs no more.
pub proof fn law_whole_commands_are_taken(kind: CommandKind, wire: JsonView)
    requires
        optional_string(wire, "id"@),
        wire.get_str("activeSessionId"@) is Some,
    ensures
        kind == CommandKind::Abort || kind == CommandKind::Kill || kind == CommandKind::GetState
            || kind == CommandKind::Attach || kind == CommandKind::Reattach || kind
            == CommandKind::WaitForIdle || kind == CommandKind::GetMessages || kind
            == CommandKind::RetryWorker || kind == CommandKind::ClearQueue ==> well_formed(
            kind,
            wire,
        ),
        wire.get_str("message"@) is Some && (kind == CommandKind::Prompt || kind
            == CommandKind::PromptAndWait || kind == CommandKind::Steer || kind
            == CommandKind::FollowUp) ==> well_formed(kind, wire),
        wire.get_str("name"@) is Some && (kind == CommandKind::Rename || kind
            == CommandKind::SetSessionName) ==> well_formed(kind, wire),
        kind == CommandKind::Detach || kind == CommandKind::Shutdown || kind == CommandKind::Restart
            || kind == CommandKind::AckResult ==> well_formed(kind, wire),
{
}

/// An optional member is absent, null or of its type.
pub proof fn law_optional_members_have_their_type(wire: JsonView, key: Seq<char>)
    ensures
        optional_string(wire, key) <==> wire.get(key) is None || wire.get(key) == Some(
            JsonView::Null,
        ) || wire.get_str(key) is Some,
        optional_bool(wire, key) <==> wire.get(key) is None || wire.get(key) == Some(JsonView::Null)
            || wire.get_bool(key) is Some,
{
}

/// An object spells a command exactly where its type names one and it has what that
/// command needs; the command is that object, unchanged.
pub proof fn law_commands_are_taken_as_they_come(value: JsonView)
    ensures
        command_of(value) matches Some(command) ==> command.wire == value && value.get_str("type"@)
            is Some && kind_of(value.get_str("type"@)->0) == Some(command.kind) && well_formed(
            command.kind,
            value,
        ),
        value.get_str("type"@) is Some && kind_of(value.get_str("type"@)->0) is Some && well_formed(
            kind_of(value.get_str("type"@)->0)->0,
            value,
        ) ==> command_of(value) is Some,
{
}

/// An envelope is opened exactly where it has an id, speaks the protocol, names its
/// client properly and holds a command; it is refused for the first that it lacks.
/// What is opened is what it holds.
pub proof fn law_envelopes_are_opened_whole(value: JsonView)
    requires
        is_envelope(value),
    ensures
        opened(value) matches Ok(parts) ==> value.get_str("id"@) == Some(parts.id) && value.get(
            "command"@,
        ) == Some(parts.command) && protocol_accepted(value.get("protocol"@)->0)
            && envelope_client(value) == Ok::<Option<Seq<char>>, EnvelopeErrorView>(
            parts.client_id,
        ) && parts.protocol_name == DAEMON_PROTOCOL_NAME@,
        value.get_str("id"@) is None ==> opened(value) is Err,
        value.get_str("id"@) is Some && (value.get("protocol"@) is None || !protocol_accepted(
            value.get("protocol"@)->0,
        )) ==> opened(value) == Err::<crate::protocol::OpenedView, EnvelopeErrorView>(
            EnvelopeErrorView::ProtocolTooOld(DAEMON_COMMAND_ENVELOPE_MIN_PROTOCOL_VERSION),
        ),
        value.get_str("id"@) is Some && value.get("protocol"@) is Some && protocol_accepted(
            value.get("protocol"@)->0,
        ) && envelope_client(value) is Ok && value.get("command"@) is Some ==> opened(value) is Ok,
{
}

/// A protocol is spoken exactly under its own name and in a version this build
/// understands.
pub proof fn law_only_spoken_protocols_are_accepted(protocol: JsonView)
    ensures
        protocol_accepted(protocol) ==> protocol.get_str("name"@) == Some(DAEMON_PROTOCOL_NAME@) && (
        protocol.get_u64("version"@) matches Some(version)
            && DAEMON_COMMAND_ENVELOPE_MIN_PROTOCOL_VERSION <= version <= DAEMON_PROTOCOL_VERSION),
        protocol.get_str("name"@) == Some(DAEMON_PROTOCOL_NAME@) && protocol.get_u64("version"@)
            == Some(DAEMON_PROTOCOL_VERSION) ==> protocol_accepted(protocol),
{
}

/// A bare command is read under its own id, from no client.
pub proof fn law_bare_commands_are_read(value: JsonView)
    requires
        !is_envelope(value),
    ensures
        opened(value) matches Ok(parts) && parts.id == or_empty(value.get_str("id"@))
            && parts.command == value && parts.client_id is None,
        supervisor_envelope_of(value) is Err,
{
}

/// A client is named by a text, or not at all.
pub proof fn law_clients_are_named_by_texts(value: JsonView, client: Seq<char>)
    ensures
        value.get("clientId"@) == Some(JsonView::Str(client)) ==> envelope_client(value) == Ok::<
            Option<Seq<char>>,
            EnvelopeErrorView,
        >(Some(client)),
        value.get("clientId"@) is None || value.get("clientId"@) == Some(JsonView::Null)
            ==> envelope_client(value) == Ok::<Option<Seq<char>>, EnvelopeErrorView>(None),
        envelope_client(value) is Err <==> value.get("clientId"@) is Some && value.get("clientId"@)
            != Some(JsonView::Null) && value.get_str("clientId"@) is None,
        is_envelope(value) <==> value.get_str("type"@) == Some("command"@),
{
}

/// What a line is parsed to is what its parts spell; a line that does not parse is
/// refused with the parser's words, and a command that is none for what it is.
pub proof fn law_lines_are_parsed(value: JsonView, message: Seq<char>)
    ensures
        line_envelope(Ok(value)) == envelope_of(value),
        supervisor_line_envelope(Ok(value)) == supervisor_envelope_of(value),
        line_envelope(Err(message)) == Err::<crate::protocol::EnvelopeView, EnvelopeErrorView>(
            EnvelopeErrorView::Invalid("invalid JSON: "@ + message),
        ),
        supervisor_line_envelope(Err(message)) == Err::<
            crate::protocol::EnvelopeView,
            EnvelopeErrorView,
        >(EnvelopeErrorView::Invalid("invalid JSON: "@ + message)),
        envelope_of(value) matches Ok(envelope) ==> (opened(value) matches Ok(parts)
            && envelope.id == parts.id && envelope.client_id == parts.client_id && command_of(
            parts.command,
        ) == Some(envelope.command)),
        opened(value) matches Ok(parts) ==> (command_of(parts.command) is Some ==> envelope_of(
            value,
        ) is Ok) && (command_of(parts.command) is None ==> envelope_of(value) == Err::<
            crate::protocol::EnvelopeView,
            EnvelopeErrorView,
        >(command_error(parts.command))),
{
}

/// A success carries its data and no error, and a failure its error and no data.
pub proof fn law_answers_say_how_it_went(
    id: Option<Seq<char>>,
    command: Seq<char>,
    data: Option<JsonView>,
    error: Seq<char>,
)
    ensures
        success(id, command, data).success && success(id, command, data).data == data && success(
            id,
            command,
            data,
        ).error is None && success(id, command, data).id == id && success(id, command, data).command
            == command,
        !failure(id, command, error).success && failure(id, command, error).error == Some(error)
            && failure(id, command, error).data is None && failure(id, command, error).id == id
            && failure(id, command, error).command == command,
{
}

/// The line of a response says all that the response does.
pub proof fn law_response_lines_are_whole(response: ResponseView)
    ensures
        line_of(response).carries("type"@, JsonView::Str("response"@)),
        line_of(response).carries("command"@, JsonView::Str(response.command)),
        line_of(response).carries("success"@, JsonView::Bool(response.success)),
        response.id matches Some(id) ==> line_of(response).carries("id"@, JsonView::Str(id)),
        response.data matches Some(data) ==> line_of(response).carries("data"@, data),
        response.error matches Some(error) ==> line_of(response).carries(
            "error"@,
            JsonView::Str(error),
        ),
        response.error_info matches Some(info) ==> line_of(response).carries("errorInfo"@, info),
{
    broadcast use group_members;

}

/// An event's metadata says its id, its place in the stream and when it was sent.
pub proof fn law_event_metadata_is_whole(meta: DaemonEventMeta)
    ensures
        meta_json(meta).carries("id"@, JsonView::Str(meta.id@)),
        meta_json(meta).carries("emittedAt"@, JsonView::Str(meta.emitted_at@)),
        meta.sequence matches Some(sequence) ==> meta_json(meta).carries(
            "sequence"@,
            JsonView::uint(sequence),
        ),
        opt_text(meta.active_session_id) matches Some(id) ==> meta_json(meta).carries(
            "activeSessionId"@,
            JsonView::Str(id),
        ),
        meta.cursor matches Some(cursor) ==> meta_json(meta).carries(
            "cursor"@,
            JsonView::object().field("generation"@, JsonView::Str(cursor.generation@)).field(
                "sequence"@,
                JsonView::uint(cursor.sequence),
            ),
        ),
        meta.replayed matches Some(replayed) ==> meta_json(meta).carries(
            "replayed"@,
            JsonView::Bool(replayed),
        ),
{
    broadcast use group_members;

}

/// A client's stream is whole exactly where it stopped at the session's last event
/// of the same generation; otherwise it is told what is wrong first.
pub proof fn law_gaps_are_told(resume: DaemonResumeCursor, last: u64, generation: Seq<char>)
    ensures
        replay_gap(resume, last, generation) is None <==> resume_sequence(resume) == last && (
        resume.generation is None || resume.generation->0@ == generation),
        resume.generation is Some && resume.generation->0@ != generation ==> replay_gap(
            resume,
            last,
            generation,
        ) == Some("event_generation_changed"@),
        (resume.generation is None || resume.generation->0@ == generation) && resume_sequence(
            resume,
        ) > last ==> replay_gap(resume, last, generation) == Some(
            "resume_cursor_ahead_of_session"@,
        ),
        (resume.generation is None || resume.generation->0@ == generation) && resume_sequence(
            resume,
        ) < last ==> replay_gap(resume, last, generation) == Some("event_replay_not_available"@),
        resume.sequence matches Some(sequence) ==> resume_sequence(resume) == sequence,
        resume.sequence is None && resume.event_sequence is Some ==> resume_sequence(resume)
            == resume.event_sequence->0,
        resume.sequence is None && resume.event_sequence is None ==> resume_sequence(resume) == 0,
        ({
            let told = replay_info(Some(resume), last, generation);
            &&& told.status == DaemonReplayStatus::Complete <==> replay_gap(
                resume,
                last,
                generation,
            ) is None
            &&& told.reason == replay_gap(resume, last, generation)
            &&& told.from_sequence == Some(resume_sequence(resume))
            &&& told.to_sequence == last
            &&& told.to_cursor is Some && told.to_cursor->0.generation == generation
                && told.to_cursor->0.sequence == last
            &&& opt_text(resume.generation) matches Some(from) ==> told.from_cursor is Some
                && told.from_cursor->0.generation == from && told.from_cursor->0.sequence
                == resume_sequence(resume)
        }),
        replay_info(None, last, generation).status == DaemonReplayStatus::Complete,
        replay_info(None, last, generation).from_sequence is None,
{
}

/// Capabilities that the daemon supports are kept and no other.
pub proof fn law_supported_capabilities_are_kept(
    capabilities: Seq<Seq<char>>,
    capability: Seq<char>,
)
    ensures
        client_capabilities().contains(capability) ==> supported_among(
            capabilities.push(capability),
        ) == supported_among(capabilities).push(capability),
        !client_capabilities().contains(capability) ==> supported_among(
            capabilities.push(capability),
        ) == supported_among(capabilities),
        supported_among(Seq::empty()).len() == 0,
        client_capabilities().contains("attach_snapshot"@) && client_capabilities().contains(
            "event_sequence"@,
        ) && client_capabilities().contains("slim_attach"@) && client_capabilities().contains(
            "extension_ui"@,
        ) && client_capabilities().contains("chunked_snapshot"@) && client_capabilities().contains(
            "client_owned_sessions"@,
        ),
        client_capabilities().len() == 6,
{
    reveal(Seq::filter);
    assert(capabilities.push(capability).drop_last() =~= capabilities);
    let all = client_capabilities();
    assert(all[0] == "attach_snapshot"@ && all[1] == "event_sequence"@ && all[2]
        == "extension_ui"@ && all[3] == "slim_attach"@ && all[4] == "chunked_snapshot"@ && all[5]
        == "client_owned_sessions"@);
}

/// A process is told apart by the twentieth field behind the last parenthesis of its
/// status line.
pub proof fn law_processes_are_told_by_their_start(stat: Seq<char>)
    ensures
        last_paren(stat) matches Some(end) ==> 0 <= end < stat.len() && stat[end] == ')'
            && forall|j: int| end < j < stat.len() ==> (#[trigger] stat[j]) != ')',
        last_paren(stat) is None ==> start_id_in(stat) is None && has_stat_fields(stat)
            && forall|j: int| 0 <= j < stat.len() ==> (#[trigger] stat[j]) != ')',
        start_id_in(stat) matches Some(id) ==> last_paren(stat) is Some && ({
            let fields = split_on(stat.skip(last_paren(stat)->0 + 2), ' ');
            fields.len() > 19 && fields[19].len() > 0 && id == "proc:"@ + fields[19]
        }),
    decreases stat.len(),
{
    if stat.len() > 0 && stat.last() != ')' {
        let before = stat.drop_last();
        law_processes_are_told_by_their_start(before);
        match last_paren(before) {
            Some(end) => {
                assert(before[end] == stat[end]);
                assert forall|j: int| end < j < stat.len() implies (#[trigger] stat[j])
                    != ')' by {
                    if j < before.len() {
                        assert(before[j] == stat[j]);
                    }
                }
            },
            None => {
                assert forall|j: int| 0 <= j < stat.len() implies (#[trigger] stat[j])
                    != ')' by {
                    if j < before.len() {
                        assert(before[j] == stat[j]);
                    }
                }
            },
        }
    }
}

/// The metadata of an event names its session and its place in it: the id joins the two,
/// the position is in the generation that is given, or else in the session's own, and
/// the time is the one that is given, or else now.
pub proof fn law_events_know_their_place(
    meta: DaemonEventMeta,
    active_session_id: Seq<char>,
    sequence: u64,
    emitted_at: Option<&str>,
    generation: Option<&str>,
    now: Seq<char>,
)
    requires
        is_meta(meta, active_session_id, sequence, emitted_at, generation, now),
    ensures
        meta.id@ == active_session_id + ":"@ + decimal(sequence as nat),
        meta.sequence == Some(sequence) && meta.cursor is Some && meta.cursor->0.sequence == sequence,
        opt_text(meta.active_session_id) == Some(active_session_id),
        generation matches Some(own) ==> meta.cursor->0.generation@ == own@,
        generation is None ==> meta.cursor->0.generation@ == active_session_id,
        emitted_at matches Some(at) ==> meta.emitted_at@ == at@,
        emitted_at is None ==> meta.emitted_at@ == now,
        meta.replayed is None,
{
}

/// A status line is of its session and carries its recap, where it has one.
pub proof fn law_status_lines_carry_the_recap(
    active_session_id: Seq<char>,
    recap: Seq<char>,
    meta: DaemonEventMeta,
)
    ensures
        ({
            let line = status_json(active_session_id, recap, meta);
            &&& line.carries("type"@, JsonView::Str("session_status"@))
            &&& line.carries("activeSessionId"@, JsonView::Str(active_session_id))
            &&& recap.len() > 0 ==> line.carries("recap"@, JsonView::Str(recap))
            &&& recap.len() == 0 ==> !line.names("recap"@)
            &&& line.carries("meta"@, meta_json(meta))
        }),
{
    broadcast use group_members;

    reveal_strlit("type");
    reveal_strlit("activeSessionId");
    reveal_strlit("recap");
    reveal_strlit("meta");
    assert("type"@.len() == 4 && "activeSessionId"@.len() == 15 && "recap"@.len() == 5
        && "meta"@.len() == 4);
}

/// A session event is of its session and carries the very event and its metadata.
pub proof fn law_session_events_are_sent_whole(
    active_session_id: Seq<char>,
    event: JsonView,
    meta: DaemonEventMeta,
)
    ensures
        event_json(active_session_id, event, meta).carries("type"@, JsonView::Str("session_event"@)),
        event_json(active_session_id, event, meta).carries(
            "activeSessionId"@,
            JsonView::Str(active_session_id),
        ),
        event_json(active_session_id, event, meta).carries("event"@, event),
        event_json(active_session_id, event, meta).carries("meta"@, meta_json(meta)),
{
    broadcast use group_members;

}

} // verus!
