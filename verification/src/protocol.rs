//! The daemon wire protocol: command envelopes, capability sets, event and
//! replay metadata, and responses.
use vstd::prelude::*;

use crate::json::{json_of_text, opt_view, or_empty, parse_json, Json, JsonView};
use crate::text::{
    concat2, concat3, decimal, decimal_text, is_text, opt_str, opt_text, own_opt, same_text,
    split_on, split_text, texts,
};

verus! {

/// The name of the protocol in command envelopes.
pub const DAEMON_PROTOCOL_NAME: &'static str = "prime-agent.daemon";

/// The protocol version of this build.
pub const DAEMON_PROTOCOL_VERSION: u64 = 7;

/// The oldest protocol version accepted in command envelopes.
pub const DAEMON_COMMAND_ENVELOPE_MIN_PROTOCOL_VERSION: u64 = 7;

/// The protocol a command was sent under.
#[derive(Debug, PartialEq, Eq)]
pub struct DaemonProtocolInfo {
    pub name: String,
    pub version: u64,
}

/// The commands the daemon knows.
#[derive(Debug, Clone, Copy, PartialEq, Eq, Structural)]
pub enum CommandKind {
    List,
    ListSavedSessions,
    Create,
    Attach,
    Reattach,
    Detach,
    Kill,
    Rename,
    SetSessionName,
    Prompt,
    PromptAndWait,
    Steer,
    FollowUp,
    Abort,
    WaitForIdle,
    GetState,
    GetSessionHeader,
    GetSessionStats,
    GetMessages,
    GetQueue,
    ClearQueue,
    AbortAndClearQueue,
    GetLastAssistantText,
    RetryWorker,
    Restart,
    Shutdown,
    AckResult,
    StartSideQuestion,
    AbortSideQuestion,
    SendMessage,
}

/// A client command: what it asks for, and the object it arrived as.
#[derive(Debug, PartialEq, Eq)]
pub struct DaemonCommand {
    pub kind: CommandKind,
    pub wire: Json,
}

/// The mathematical command behind a [`DaemonCommand`].
#[verifier::ext_equal]
pub struct CommandView {
    pub kind: CommandKind,
    pub wire: JsonView,
}

impl View for DaemonCommand {
    type V = CommandView;

    open spec fn view(&self) -> CommandView {
        CommandView { kind: self.kind, wire: self.wire@ }
    }
}

/// A parsed client command envelope.
#[derive(Debug, PartialEq, Eq)]
pub struct DaemonCommandEnvelope {
    pub id: String,
    pub protocol: DaemonProtocolInfo,
    pub client_id: Option<String>,
    pub command: DaemonCommand,
}

/// The mathematical envelope behind a [`DaemonCommandEnvelope`].
#[verifier::ext_equal]
pub struct EnvelopeView {
    pub id: Seq<char>,
    pub protocol_name: Seq<char>,
    pub protocol_version: u64,
    pub client_id: Option<Seq<char>>,
    pub command: CommandView,
}

impl View for DaemonCommandEnvelope {
    type V = EnvelopeView;

    open spec fn view(&self) -> EnvelopeView {
        EnvelopeView {
            id: self.id@,
            protocol_name: self.protocol.name@,
            protocol_version: self.protocol.version,
            client_id: opt_text(self.client_id),
            command: self.command@,
        }
    }
}

/// Why a command line is refused.
#[derive(Debug, PartialEq, Eq)]
pub enum EnvelopeParseError {
    ProtocolTooOld(u64),
    UnknownCommand(String),
    Invalid(String),
}

/// The mathematical error behind an [`EnvelopeParseError`].
#[verifier::ext_equal]
pub enum EnvelopeErrorView {
    ProtocolTooOld(u64),
    UnknownCommand(Seq<char>),
    Invalid(Seq<char>),
}

impl View for EnvelopeParseError {
    type V = EnvelopeErrorView;

    open spec fn view(&self) -> EnvelopeErrorView {
        match self {
            EnvelopeParseError::ProtocolTooOld(version) => EnvelopeErrorView::ProtocolTooOld(
                *version,
            ),
            EnvelopeParseError::UnknownCommand(name) => EnvelopeErrorView::UnknownCommand(name@),
            EnvelopeParseError::Invalid(reason) => EnvelopeErrorView::Invalid(reason@),
        }
    }
}

impl EnvelopeErrorView {
    /// The sentence sent to the client.
    pub open spec fn message(self) -> Seq<char> {
        match self {
            EnvelopeErrorView::ProtocolTooOld(version) => "Daemon commands require protocol "@
                + decimal(version as nat) + " or newer"@,
            EnvelopeErrorView::UnknownCommand(name) => "Unknown daemon command: "@ + name,
            EnvelopeErrorView::Invalid(reason) => "Invalid daemon command: "@ + reason,
        }
    }
}

impl EnvelopeParseError {
    /// Whether the line named a command that the daemon does not know.
    pub fn is_unknown_command(&self) -> (r: bool)
        ensures
            r == (self is UnknownCommand),
    {
        match self {
            EnvelopeParseError::UnknownCommand(_) => true,
            _ => false,
        }
    }

    /// The sentence sent to the client.
    pub fn message(&self) -> (r: String)
        ensures
            r@ == self@.message(),
    {
        match self {
            EnvelopeParseError::ProtocolTooOld(version) => concat3(
                "Daemon commands require protocol ",
                decimal_text(*version).as_str(),
                " or newer",
            ),
            EnvelopeParseError::UnknownCommand(name) => concat2(
                "Unknown daemon command: ",
                name.as_str(),
            ),
            EnvelopeParseError::Invalid(reason) => concat2(
                "Invalid daemon command: ",
                reason.as_str(),
            ),
        }
    }
}

/// The command of a type name.
pub open spec fn kind_of(name: Seq<char>) -> Option<CommandKind> {
    if name == "list"@ {
        Some(CommandKind::List)
    } else if name == "list_saved_sessions"@ {
        Some(CommandKind::ListSavedSessions)
    } else if name == "create"@ {
        Some(CommandKind::Create)
    } else if name == "attach"@ {
        Some(CommandKind::Attach)
    } else if name == "reattach"@ {
        Some(CommandKind::Reattach)
    } else if name == "detach"@ {
        Some(CommandKind::Detach)
    } else if name == "kill"@ {
        Some(CommandKind::Kill)
    } else if name == "rename"@ {
        Some(CommandKind::Rename)
    } else if name == "set_session_name"@ {
        Some(CommandKind::SetSessionName)
    } else if name == "prompt"@ {
        Some(CommandKind::Prompt)
    } else if name == "prompt_and_wait"@ {
        Some(CommandKind::PromptAndWait)
    } else if name == "steer"@ {
        Some(CommandKind::Steer)
    } else if name == "follow_up"@ {
        Some(CommandKind::FollowUp)
    } else if name == "abort"@ {
        Some(CommandKind::Abort)
    } else if name == "wait_for_idle"@ {
        Some(CommandKind::WaitForIdle)
    } else if name == "get_state"@ {
        Some(CommandKind::GetState)
    } else if name == "get_session_header"@ {
        Some(CommandKind::GetSessionHeader)
    } else if name == "get_session_stats"@ {
        Some(CommandKind::GetSessionStats)
    } else if name == "get_messages"@ {
        Some(CommandKind::GetMessages)
    } else if name == "get_queue"@ {
        Some(CommandKind::GetQueue)
    } else if name == "clear_queue"@ {
        Some(CommandKind::ClearQueue)
    } else if name == "abort_and_clear_queue"@ {
        Some(CommandKind::AbortAndClearQueue)
    } else if name == "get_last_assistant_text"@ {
        Some(CommandKind::GetLastAssistantText)
    } else if name == "retry_worker"@ {
        Some(CommandKind::RetryWorker)
    } else if name == "restart"@ {
        Some(CommandKind::Restart)
    } else if name == "shutdown"@ {
        Some(CommandKind::Shutdown)
    } else if name == "ack_result"@ {
        Some(CommandKind::AckResult)
    } else if name == "start_side_question"@ {
        Some(CommandKind::StartSideQuestion)
    } else if name == "abort_side_question"@ {
        Some(CommandKind::AbortSideQuestion)
    } else if name == "send_message"@ {
        Some(CommandKind::SendMessage)
    } else {
        None
    }
}

/// The command of a type name.
pub fn command_kind(name: &str) -> (r: Option<CommandKind>)
    ensures
        r == kind_of(name@),
{
    if same_text(name, "list") {
        Some(CommandKind::List)
    } else if same_text(name, "list_saved_sessions") {
        Some(CommandKind::ListSavedSessions)
    } else if same_text(name, "create") {
        Some(CommandKind::Create)
    } else if same_text(name, "attach") {
        Some(CommandKind::Attach)
    } else if same_text(name, "reattach") {
        Some(CommandKind::Reattach)
    } else if same_text(name, "detach") {
        Some(CommandKind::Detach)
    } else if same_text(name, "kill") {
        Some(CommandKind::Kill)
    } else if same_text(name, "rename") {
        Some(CommandKind::Rename)
    } else if same_text(name, "set_session_name") {
        Some(CommandKind::SetSessionName)
    } else if same_text(name, "prompt") {
        Some(CommandKind::Prompt)
    } else if same_text(name, "prompt_and_wait") {
        Some(CommandKind::PromptAndWait)
    } else if same_text(name, "steer") {
        Some(CommandKind::Steer)
    } else if same_text(name, "follow_up") {
        Some(CommandKind::FollowUp)
    } else if same_text(name, "abort") {
        Some(CommandKind::Abort)
    } else if same_text(name, "wait_for_idle") {
        Some(CommandKind::WaitForIdle)
    } else if same_text(name, "get_state") {
        Some(CommandKind::GetState)
    } else if same_text(name, "get_session_header") {
        Some(CommandKind::GetSessionHeader)
    } else if same_text(name, "get_session_stats") {
        Some(CommandKind::GetSessionStats)
    } else if same_text(name, "get_messages") {
        Some(CommandKind::GetMessages)
    } else if same_text(name, "get_queue") {
        Some(CommandKind::GetQueue)
    } else if same_text(name, "clear_queue") {
        Some(CommandKind::ClearQueue)
    } else if same_text(name, "abort_and_clear_queue") {
        Some(CommandKind::AbortAndClearQueue)
    } else if same_text(name, "get_last_assistant_text") {
        Some(CommandKind::GetLastAssistantText)
    } else if same_text(name, "retry_worker") {
        Some(CommandKind::RetryWorker)
    } else if same_text(name, "restart") {
        Some(CommandKind::Restart)
    } else if same_text(name, "shutdown") {
        Some(CommandKind::Shutdown)
    } else if same_text(name, "ack_result") {
        Some(CommandKind::AckResult)
    } else if same_text(name, "start_side_question") {
        Some(CommandKind::StartSideQuestion)
    } else if same_text(name, "abort_side_question") {
        Some(CommandKind::AbortSideQuestion)
    } else if same_text(name, "send_message") {
        Some(CommandKind::SendMessage)
    } else {
        None
    }
}

/// Whether a type name belongs to the commands that a malformed body is
/// reported for; every other name is reported as unknown.
pub open spec fn is_known_type(name: Seq<char>) -> bool {
    match kind_of(name) {
        Some(CommandKind::StartSideQuestion)
        | Some(CommandKind::AbortSideQuestion)
        | Some(CommandKind::SendMessage)
        | None => false,
        Some(_) => true,
    }
}

/// Whether a type name belongs to the known command types.
pub fn known_command_type(name: &str) -> (r: bool)
    ensures
        r == is_known_type(name@),
{
    match command_kind(name) {
        Some(CommandKind::StartSideQuestion)
        | Some(CommandKind::AbortSideQuestion)
        | Some(CommandKind::SendMessage)
        | None => false,
        Some(_) => true,
    }
}

/// The type name under which a command is routed and answered.
pub open spec fn wire_name(kind: CommandKind) -> Seq<char> {
    match kind {
        CommandKind::List => "list"@,
        CommandKind::ListSavedSessions => "list_saved_sessions"@,
        CommandKind::Create => "create"@,
        CommandKind::Attach => "attach"@,
        CommandKind::Reattach => "reattach"@,
        CommandKind::Detach => "detach"@,
        CommandKind::Kill => "kill"@,
        CommandKind::Rename => "rename"@,
        CommandKind::SetSessionName => "set_session_name"@,
        CommandKind::Prompt => "prompt"@,
        CommandKind::PromptAndWait => "prompt_and_wait"@,
        CommandKind::Steer => "steer"@,
        CommandKind::FollowUp => "follow_up"@,
        CommandKind::Abort => "abort"@,
        CommandKind::WaitForIdle => "wait_for_idle"@,
        CommandKind::GetState => "get_state"@,
        CommandKind::GetSessionHeader => "get_session_header"@,
        CommandKind::GetSessionStats => "get_session_stats"@,
        CommandKind::GetMessages => "get_messages"@,
        CommandKind::GetQueue => "get_queue"@,
        CommandKind::ClearQueue => "clear_queue"@,
        CommandKind::AbortAndClearQueue => "abort_and_clear_queue"@,
        CommandKind::GetLastAssistantText => "get_last_assistant_text"@,
        CommandKind::RetryWorker => "retry_worker"@,
        CommandKind::Restart => "restart"@,
        CommandKind::Shutdown => "shutdown"@,
        CommandKind::AckResult => "ack_result"@,
        CommandKind::StartSideQuestion => "start_side_question"@,
        CommandKind::AbortSideQuestion => "abort_side_question"@,
        CommandKind::SendMessage => "unknown"@,
    }
}

/// The type name under which a command is routed and answered.
pub fn command_type_name(command: &DaemonCommand) -> (r: &'static str)
    ensures
        r@ == wire_name(command.kind),
{
    match command.kind {
        CommandKind::List => "list",
        CommandKind::ListSavedSessions => "list_saved_sessions",
        CommandKind::Create => "create",
        CommandKind::Attach => "attach",
        CommandKind::Reattach => "reattach",
        CommandKind::Detach => "detach",
        CommandKind::Kill => "kill",
        CommandKind::Rename => "rename",
        CommandKind::SetSessionName => "set_session_name",
        CommandKind::Prompt => "prompt",
        CommandKind::PromptAndWait => "prompt_and_wait",
        CommandKind::Steer => "steer",
        CommandKind::FollowUp => "follow_up",
        CommandKind::Abort => "abort",
        CommandKind::WaitForIdle => "wait_for_idle",
        CommandKind::GetState => "get_state",
        CommandKind::GetSessionHeader => "get_session_header",
        CommandKind::GetSessionStats => "get_session_stats",
        CommandKind::GetMessages => "get_messages",
        CommandKind::GetQueue => "get_queue",
        CommandKind::ClearQueue => "clear_queue",
        CommandKind::AbortAndClearQueue => "abort_and_clear_queue",
        CommandKind::GetLastAssistantText => "get_last_assistant_text",
        CommandKind::RetryWorker => "retry_worker",
        CommandKind::Restart => "restart",
        CommandKind::Shutdown => "shutdown",
        CommandKind::AckResult => "ack_result",
        CommandKind::StartSideQuestion => "start_side_question",
        CommandKind::AbortSideQuestion => "abort_side_question",
        CommandKind::SendMessage => "unknown",
    }
}

/// Every routed type name parses back to its own command.
pub proof fn law_type_names_round_trip(kind: CommandKind)
    requires
        kind != CommandKind::SendMessage,
    ensures
        kind_of(wire_name(kind)) == Some(kind),
{
    reveal_strlit("list");
    reveal_strlit("list_saved_sessions");
    reveal_strlit("create");
    reveal_strlit("attach");
    reveal_strlit("reattach");
    reveal_strlit("detach");
    reveal_strlit("kill");
    reveal_strlit("rename");
    reveal_strlit("set_session_name");
    reveal_strlit("prompt");
    reveal_strlit("prompt_and_wait");
    reveal_strlit("steer");
    reveal_strlit("follow_up");
    reveal_strlit("abort");
    reveal_strlit("wait_for_idle");
    reveal_strlit("get_state");
    reveal_strlit("get_session_header");
    reveal_strlit("get_session_stats");
    reveal_strlit("get_messages");
    reveal_strlit("get_queue");
    reveal_strlit("clear_queue");
    reveal_strlit("abort_and_clear_queue");
    reveal_strlit("get_last_assistant_text");
    reveal_strlit("retry_worker");
    reveal_strlit("restart");
    reveal_strlit("shutdown");
    reveal_strlit("ack_result");
    reveal_strlit("start_side_question");
    reveal_strlit("abort_side_question");
    reveal_strlit("send_message");
    assert("list"@.len() == 4);
    assert("list_saved_sessions"@.len() == 19);
    assert("create"@.len() == 6);
    assert("attach"@.len() == 6);
    assert("reattach"@.len() == 8);
    assert("detach"@.len() == 6);
    assert("kill"@.len() == 4);
    assert("rename"@.len() == 6);
    assert("set_session_name"@.len() == 16);
    assert("prompt"@.len() == 6);
    assert("prompt_and_wait"@.len() == 15);
    assert("steer"@.len() == 5);
    assert("follow_up"@.len() == 9);
    assert("abort"@.len() == 5);
    assert("wait_for_idle"@.len() == 13);
    assert("get_state"@.len() == 9);
    assert("get_session_header"@.len() == 18);
    assert("get_session_stats"@.len() == 17);
    assert("get_messages"@.len() == 12);
    assert("get_queue"@.len() == 9);
    assert("clear_queue"@.len() == 11);
    assert("abort_and_clear_queue"@.len() == 21);
    assert("get_last_assistant_text"@.len() == 23);
    assert("retry_worker"@.len() == 12);
    assert("restart"@.len() == 7);
    assert("shutdown"@.len() == 8);
    assert("ack_result"@.len() == 10);
    assert("start_side_question"@.len() == 19);
    assert("abort_side_question"@.len() == 19);
    assert("send_message"@.len() == 12);
    assert("list"@[0] != "kill"@[0]);
    assert("steer"@[0] != "abort"@[0]);
    assert("create"@[0] != "attach"@[0]);
    assert("create"@[0] != "detach"@[0]);
    assert("create"@[0] != "rename"@[0]);
    assert("create"@[0] != "prompt"@[0]);
    assert("attach"@[0] != "detach"@[0]);
    assert("attach"@[0] != "rename"@[0]);
    assert("attach"@[0] != "prompt"@[0]);
    assert("detach"@[0] != "rename"@[0]);
    assert("detach"@[0] != "prompt"@[0]);
    assert("rename"@[0] != "prompt"@[0]);
    assert("reattach"@[0] != "shutdown"@[0]);
    assert("follow_up"@[0] != "get_state"@[0]);
    assert("follow_up"@[0] != "get_queue"@[0]);
    assert("get_state"@[4] != "get_queue"@[4]);
    assert("get_messages"@[0] != "retry_worker"@[0]);
    assert("get_messages"@[0] != "send_message"@[0]);
    assert("retry_worker"@[0] != "send_message"@[0]);
    assert("list_saved_sessions"@[0] != "start_side_question"@[0]);
    assert("list_saved_sessions"@[0] != "abort_side_question"@[0]);
    assert("start_side_question"@[0] != "abort_side_question"@[0]);
}

/// Whether a command always names the session it is for.
pub open spec fn addresses_session(kind: CommandKind) -> bool {
    match kind {
        CommandKind::List
        | CommandKind::ListSavedSessions
        | CommandKind::Create
        | CommandKind::Detach
        | CommandKind::Restart
        | CommandKind::Shutdown
        | CommandKind::AckResult
        | CommandKind::SendMessage => false,
        _ => true,
    }
}

fn needs_session(kind: CommandKind) -> (r: bool)
    ensures
        r == addresses_session(kind),
{
    match kind {
        CommandKind::List
        | CommandKind::ListSavedSessions
        | CommandKind::Create
        | CommandKind::Detach
        | CommandKind::Restart
        | CommandKind::Shutdown
        | CommandKind::AckResult
        | CommandKind::SendMessage => false,
        _ => true,
    }
}

/// The session selector carried by a command, when it has one.
pub open spec fn session_selector(command: CommandView) -> Option<Seq<char>> {
    if addresses_session(command.kind) || command.kind == CommandKind::Detach {
        command.wire.get_str("activeSessionId"@)
    } else {
        None
    }
}

/// The session selector carried by a command, when it has one.
pub fn command_active_session_id(command: &DaemonCommand) -> (r: Option<&str>)
    ensures
        opt_str(r) == session_selector(command@),
{
    if needs_session(command.kind) || command.kind == CommandKind::Detach {
        command.wire.get_str("activeSessionId")
    } else {
        None
    }
}

/// Whether a member is absent, null or a string.
pub open spec fn optional_string(wire: JsonView, key: Seq<char>) -> bool {
    match wire.get(key) {
        None | Some(JsonView::Null) | Some(JsonView::Str(_)) => true,
        _ => false,
    }
}

/// Whether a member is absent, null or a truth value.
pub open spec fn optional_bool(wire: JsonView, key: Seq<char>) -> bool {
    match wire.get(key) {
        None | Some(JsonView::Null) | Some(JsonView::Bool(_)) => true,
        _ => false,
    }
}

fn is_optional_string(wire: &Json, key: &str) -> (r: bool)
    ensures
        r == optional_string(wire@, key@),
{
    match wire.get(key) {
        None | Some(Json::Null) | Some(Json::Str(_)) => true,
        _ => false,
    }
}

fn is_optional_bool(wire: &Json, key: &str) -> (r: bool)
    ensures
        r == optional_bool(wire@, key@),
{
    match wire.get(key) {
        None | Some(Json::Null) | Some(Json::Bool(_)) => true,
        _ => false,
    }
}

/// Whether a command object holds the members its kind asks for, in their
/// types.
pub open spec fn well_formed(kind: CommandKind, wire: JsonView) -> bool {
    &&& optional_string(wire, "id"@)
    &&& addresses_session(kind) ==> wire.get_str("activeSessionId"@) is Some
    &&& match kind {
        CommandKind::Prompt
        | CommandKind::PromptAndWait
        | CommandKind::Steer
        | CommandKind::FollowUp => wire.get_str("message"@) is Some,
        CommandKind::Rename | CommandKind::SetSessionName => wire.get_str("name"@) is Some,
        CommandKind::StartSideQuestion => wire.get_str("sideQuestionId"@) is Some
            && wire.get_str("question"@) is Some,
        CommandKind::AbortSideQuestion => wire.get_str("sideQuestionId"@) is Some,
        CommandKind::SendMessage => wire.get_str("targetActiveSessionId"@) is Some
            && wire.get_str("message"@) is Some && optional_string(
            wire,
            "fromActiveSessionId"@,
        ),
        CommandKind::Detach => optional_string(wire, "activeSessionId"@),
        CommandKind::List => optional_bool(wire, "all"@) && optional_string(wire, "cwd"@)
            && optional_string(wire, "sessionDir"@),
        CommandKind::ListSavedSessions => optional_string(wire, "cwd"@) && optional_string(
            wire,
            "sessionDir"@,
        ) && optional_string(wire, "activeSessionId"@),
        CommandKind::Create => optional_string(wire, "sessionPath"@) && optional_bool(
            wire,
            "continueRecent"@,
        ) && optional_bool(wire, "noSession"@) && optional_string(wire, "name"@),
        _ => true,
    }
}

fn is_well_formed(kind: CommandKind, wire: &Json) -> (r: bool)
    ensures
        r == well_formed(kind, wire@),
{
    if !is_optional_string(wire, "id") {
        return false;
    }
    if needs_session(kind) && wire.get_str("activeSessionId").is_none() {
        return false;
    }
    match kind {
        CommandKind::Prompt
        | CommandKind::PromptAndWait
        | CommandKind::Steer
        | CommandKind::FollowUp => wire.get_str("message").is_some(),
        CommandKind::Rename | CommandKind::SetSessionName => wire.get_str("name").is_some(),
        CommandKind::StartSideQuestion => wire.get_str("sideQuestionId").is_some()
            && wire.get_str("question").is_some(),
        CommandKind::AbortSideQuestion => wire.get_str("sideQuestionId").is_some(),
        CommandKind::SendMessage => wire.get_str("targetActiveSessionId").is_some()
            && wire.get_str("message").is_some() && is_optional_string(wire, "fromActiveSessionId"),
        CommandKind::Detach => is_optional_string(wire, "activeSessionId"),
        CommandKind::List => is_optional_bool(wire, "all") && is_optional_string(wire, "cwd")
            && is_optional_string(wire, "sessionDir"),
        CommandKind::ListSavedSessions => is_optional_string(wire, "cwd") && is_optional_string(
            wire,
            "sessionDir",
        ) && is_optional_string(wire, "activeSessionId"),
        CommandKind::Create => is_optional_string(wire, "sessionPath") && is_optional_bool(
            wire,
            "continueRecent",
        ) && is_optional_bool(wire, "noSession") && is_optional_string(wire, "name"),
        _ => true,
    }
}

/// The command that an object spells, where it spells one.
pub open spec fn command_of(value: JsonView) -> Option<CommandView> {
    match value.get_str("type"@) {
        Some(name) => match kind_of(name) {
            Some(kind) => if well_formed(kind, value) {
                Some(CommandView { kind, wire: value })
            } else {
                None
            },
            None => None,
        },
        None => None,
    }
}

/// The command that an object spells, where it spells one.
pub fn decode_command(value: &Json) -> (r: Option<DaemonCommand>)
    ensures
        match r {
            Some(command) => command_of(value@) == Some(command@),
            None => command_of(value@) is None,
        },
{
    match value.get_str("type") {
        Some(name) => match command_kind(name) {
            Some(kind) => if is_well_formed(kind, value) {
                Some(DaemonCommand { kind, wire: value.duplicate() })
            } else {
                None
            },
            None => None,
        },
        None => None,
    }
}

/// Why an object is no command: its type is unknown, or its body is malformed.
pub open spec fn command_error(value: JsonView) -> EnvelopeErrorView {
    let name = match value.get_str("type"@) {
        Some(name) => name,
        None => "unknown"@,
    };
    if is_known_type(name) {
        EnvelopeErrorView::Invalid("malformed "@ + name + " command"@)
    } else {
        EnvelopeErrorView::UnknownCommand(name)
    }
}

fn refuse_command(value: &Json) -> (r: EnvelopeParseError)
    ensures
        r@ == command_error(value@),
{
    let name = match value.get_str("type") {
        Some(name) => name,
        None => "unknown",
    };
    if known_command_type(name) {
        EnvelopeParseError::Invalid(concat3("malformed ", name, " command"))
    } else {
        EnvelopeParseError::UnknownCommand(name.to_owned())
    }
}

/// The parts of an envelope around its command: id, protocol name and version,
/// client id, and the command object.
pub struct OpenedEnvelope {
    pub id: String,
    pub protocol: DaemonProtocolInfo,
    pub client_id: Option<String>,
    pub command: Json,
}

/// The mathematical parts behind an [`OpenedEnvelope`].
#[verifier::ext_equal]
pub struct OpenedView {
    pub id: Seq<char>,
    pub protocol_name: Seq<char>,
    pub protocol_version: u64,
    pub client_id: Option<Seq<char>>,
    pub command: JsonView,
}

impl View for OpenedEnvelope {
    type V = OpenedView;

    open spec fn view(&self) -> OpenedView {
        OpenedView {
            id: self.id@,
            protocol_name: self.protocol.name@,
            protocol_version: self.protocol.version,
            client_id: opt_text(self.client_id),
            command: self.command@,
        }
    }
}

/// Whether a value is a command envelope.
pub open spec fn is_envelope(value: JsonView) -> bool {
    value.get_str("type"@) == Some("command"@)
}

/// Whether an envelope's protocol is the one this build speaks.
pub open spec fn protocol_accepted(protocol: JsonView) -> bool {
    let version = match protocol.get_u64("version"@) {
        Some(version) => version,
        None => 0,
    };
    &&& protocol.get_str("name"@) == Some(DAEMON_PROTOCOL_NAME@)
    &&& DAEMON_COMMAND_ENVELOPE_MIN_PROTOCOL_VERSION <= version <= DAEMON_PROTOCOL_VERSION
}

/// The client that an envelope names: absent and null name none, and anything
/// but a string is refused.
pub open spec fn envelope_client(value: JsonView) -> Result<Option<Seq<char>>, EnvelopeErrorView> {
    match value.get("clientId"@) {
        None | Some(JsonView::Null) => Ok(None),
        Some(JsonView::Str(client)) => Ok(Some(client)),
        Some(_) => Err(EnvelopeErrorView::Invalid("clientId must be a string"@)),
    }
}

/// The parts of a command line's value. An envelope must carry an id, an
/// accepted protocol, a proper client id and a command, and is refused for the
/// first of these that is missing; any other value is a bare command.
pub open spec fn opened(value: JsonView) -> Result<OpenedView, EnvelopeErrorView> {
    if !is_envelope(value) {
        Ok(
            OpenedView {
                id: or_empty(value.get_str("id"@)),
                protocol_name: DAEMON_PROTOCOL_NAME@,
                protocol_version: DAEMON_PROTOCOL_VERSION,
                client_id: None,
                command: value,
            },
        )
    } else if value.get_str("id"@) is None {
        Err(EnvelopeErrorView::Invalid("command envelope is missing id"@))
    } else if value.get("protocol"@) is None || !protocol_accepted(value.get("protocol"@)->0) {
        Err(EnvelopeErrorView::ProtocolTooOld(DAEMON_COMMAND_ENVELOPE_MIN_PROTOCOL_VERSION))
    } else {
        match envelope_client(value) {
            Err(error) => Err(error),
            Ok(client_id) => match value.get("command"@) {
                None => Err(EnvelopeErrorView::Invalid("command envelope is missing command"@)),
                Some(command) => Ok(
                    OpenedView {
                        id: value.get_str("id"@)->0,
                        protocol_name: DAEMON_PROTOCOL_NAME@,
                        protocol_version: value.get("protocol"@)->0.get_u64("version"@)->0,
                        client_id,
                        command,
                    },
                ),
            },
        }
    }
}

/// What a command line's value is parsed to.
pub open spec fn envelope_of(value: JsonView) -> Result<EnvelopeView, EnvelopeErrorView> {
    match opened(value) {
        Err(error) => Err(error),
        Ok(parts) => match command_of(parts.command) {
            None => Err(command_error(parts.command)),
            Some(command) => Ok(
                EnvelopeView {
                    id: parts.id,
                    protocol_name: parts.protocol_name,
                    protocol_version: parts.protocol_version,
                    client_id: parts.client_id,
                    command,
                },
            ),
        },
    }
}

/// What a command line is parsed to, given what its text spells.
pub open spec fn line_envelope(parsed: Result<JsonView, Seq<char>>) -> Result<
    EnvelopeView,
    EnvelopeErrorView,
> {
    match parsed {
        Ok(value) => envelope_of(value),
        Err(message) => Err(EnvelopeErrorView::Invalid("invalid JSON: "@ + message)),
    }
}

/// The result of parsing an envelope, by views.
pub open spec fn envelope_result(r: Result<DaemonCommandEnvelope, EnvelopeParseError>) -> Result<
    EnvelopeView,
    EnvelopeErrorView,
> {
    match r {
        Ok(envelope) => Ok(envelope@),
        Err(error) => Err(error@),
    }
}

/// The protocol identity of this build.
pub fn current_protocol_info() -> (r: DaemonProtocolInfo)
    ensures
        r.name@ == DAEMON_PROTOCOL_NAME@,
        r.version == DAEMON_PROTOCOL_VERSION,
{
    DaemonProtocolInfo { name: DAEMON_PROTOCOL_NAME.to_owned(), version: DAEMON_PROTOCOL_VERSION }
}

/// The parts of a command line's value.
pub fn open_envelope(value: &Json) -> (r: Result<OpenedEnvelope, EnvelopeParseError>)
    ensures
        match r {
            Ok(parts) => opened(value@) == Ok::<OpenedView, EnvelopeErrorView>(parts@),
            Err(error) => opened(value@) == Err::<OpenedView, EnvelopeErrorView>(error@),
        },
{
    if !is_text(value.get_str("type"), "command") {
        return Ok(
            OpenedEnvelope {
                id: value.get_string_or_empty("id"),
                protocol: current_protocol_info(),
                client_id: None,
                command: value.duplicate(),
            },
        );
    }
    let id = match value.get_str("id") {
        Some(id) => id.to_owned(),
        None => {
            return Err(
                EnvelopeParseError::Invalid("command envelope is missing id".to_owned()),
            );
        },
    };
    let protocol = match value.get("protocol") {
        Some(protocol) => protocol,
        None => {
            return Err(
                EnvelopeParseError::ProtocolTooOld(DAEMON_COMMAND_ENVELOPE_MIN_PROTOCOL_VERSION),
            );
        },
    };
    let version: u64 = match protocol.get_u64("version") {
        Some(version) => version,
        None => 0,
    };
    if !is_text(protocol.get_str("name"), DAEMON_PROTOCOL_NAME) || version
        < DAEMON_COMMAND_ENVELOPE_MIN_PROTOCOL_VERSION || version > DAEMON_PROTOCOL_VERSION {
        return Err(
            EnvelopeParseError::ProtocolTooOld(DAEMON_COMMAND_ENVELOPE_MIN_PROTOCOL_VERSION),
        );
    }
    let client_id: Option<String> = match value.get("clientId") {
        None | Some(Json::Null) => None,
        Some(Json::Str(client)) => Some(client.clone()),
        Some(_) => {
            return Err(EnvelopeParseError::Invalid("clientId must be a string".to_owned()));
        },
    };
    match value.get("command") {
        None => Err(EnvelopeParseError::Invalid("command envelope is missing command".to_owned())),
        Some(command) => Ok(
            OpenedEnvelope {
                id,
                protocol: DaemonProtocolInfo { name: DAEMON_PROTOCOL_NAME.to_owned(), version },
                client_id,
                command: command.duplicate(),
            },
        ),
    }
}

/// The envelope that a command line's value spells.
pub fn parse_daemon_command_value(value: &Json) -> (r: Result<
    DaemonCommandEnvelope,
    EnvelopeParseError,
>)
    ensures
        envelope_result(r) == envelope_of(value@),
{
    match open_envelope(value) {
        Err(error) => Err(error),
        Ok(parts) => match decode_command(&parts.command) {
            None => Err(refuse_command(&parts.command)),
            Some(command) => Ok(
                DaemonCommandEnvelope {
                    id: parts.id,
                    protocol: parts.protocol,
                    client_id: parts.client_id,
                    command,
                },
            ),
        },
    }
}

/// Parse one command line into an envelope. A line that is no envelope is read
/// as a bare command of the current protocol.
pub fn parse_daemon_command_line(line: &str) -> (r: Result<
    DaemonCommandEnvelope,
    EnvelopeParseError,
>)
    ensures
        envelope_result(r) == line_envelope(json_of_text(line@)),
{
    match parse_json(line) {
        Ok(value) => parse_daemon_command_value(&value),
        Err(message) => Err(
            EnvelopeParseError::Invalid(concat2("invalid JSON: ", message.as_str())),
        ),
    }
}

/// What the supervisor makes of a command line's value: only envelopes are
/// accepted.
pub open spec fn supervisor_envelope_of(value: JsonView) -> Result<
    EnvelopeView,
    EnvelopeErrorView,
> {
    if is_envelope(value) {
        envelope_of(value)
    } else {
        Err(EnvelopeErrorView::ProtocolTooOld(DAEMON_COMMAND_ENVELOPE_MIN_PROTOCOL_VERSION))
    }
}

/// What the supervisor makes of a command line, given what its text spells.
pub open spec fn supervisor_line_envelope(parsed: Result<JsonView, Seq<char>>) -> Result<
    EnvelopeView,
    EnvelopeErrorView,
> {
    match parsed {
        Ok(value) => supervisor_envelope_of(value),
        Err(message) => Err(EnvelopeErrorView::Invalid("invalid JSON: "@ + message)),
    }
}

/// The envelope that a supervisor command line's value spells.
pub fn parse_supervisor_command_value(value: &Json) -> (r: Result<
    DaemonCommandEnvelope,
    EnvelopeParseError,
>)
    ensures
        envelope_result(r) == supervisor_envelope_of(value@),
{
    if is_text(value.get_str("type"), "command") {
        parse_daemon_command_value(value)
    } else {
        Err(EnvelopeParseError::ProtocolTooOld(DAEMON_COMMAND_ENVELOPE_MIN_PROTOCOL_VERSION))
    }
}

/// Parse a client command line as the supervisor does: a bare command is
/// refused like a command of an older protocol.
pub fn parse_supervisor_command_line(line: &str) -> (r: Result<
    DaemonCommandEnvelope,
    EnvelopeParseError,
>)
    ensures
        envelope_result(r) == supervisor_line_envelope(json_of_text(line@)),
{
    match parse_json(line) {
        Ok(value) => parse_supervisor_command_value(&value),
        Err(message) => Err(
            EnvelopeParseError::Invalid(concat2("invalid JSON: ", message.as_str())),
        ),
    }
}

/// The two parsers agree on every envelope, and the supervisor's accepts
/// nothing else.
pub proof fn law_supervisor_accepts_envelopes_only(value: JsonView)
    ensures
        is_envelope(value) ==> supervisor_envelope_of(value) == envelope_of(value),
        supervisor_envelope_of(value) is Ok ==> is_envelope(value) && envelope_of(value) is Ok,
{
}

/// An accepted envelope is of the protocol this build speaks, and its command
/// is well formed.
pub proof fn law_accepted_envelopes_speak_the_protocol(value: JsonView)
    ensures
        envelope_of(value) matches Ok(envelope) ==> {
            &&& envelope.protocol_name == DAEMON_PROTOCOL_NAME@
            &&& envelope.protocol_version == DAEMON_PROTOCOL_VERSION
            &&& well_formed(envelope.command.kind, envelope.command.wire)
            &&& addresses_session(envelope.command.kind) ==> session_selector(
                envelope.command,
            ) is Some
        },
{
}

/// The client capabilities the daemon supports.
pub open spec fn client_capabilities() -> Seq<Seq<char>> {
    seq![
        "attach_snapshot"@,
        "event_sequence"@,
        "extension_ui"@,
        "slim_attach"@,
        "chunked_snapshot"@,
        "client_owned_sessions"@,
    ]
}

/// The client capabilities the daemon supports.
pub fn supported_client_capabilities() -> (r: Vec<String>)
    ensures
        texts(r@) == client_capabilities(),
{
    let r: Vec<String> =
        vec![
        "attach_snapshot".to_owned(),
        "event_sequence".to_owned(),
        "extension_ui".to_owned(),
        "slim_attach".to_owned(),
        "chunked_snapshot".to_owned(),
        "client_owned_sessions".to_owned(),
    ];
    assert(texts(r@) =~= client_capabilities());
    r
}

/// The capabilities that the daemon supports, in the order they were asked for.
pub open spec fn supported_among(capabilities: Seq<Seq<char>>) -> Seq<Seq<char>> {
    capabilities.filter(|c: Seq<char>| client_capabilities().contains(c))
}

/// The capabilities that the daemon supports, in the order they were asked for.
pub fn normalize_client_capabilities(capabilities: &Vec<String>) -> (r: Vec<String>)
    ensures
        texts(r@) == supported_among(texts(capabilities@)),
{
    let supported = supported_client_capabilities();
    let ghost asked = texts(capabilities@);
    let ghost keep = |c: Seq<char>| client_capabilities().contains(c);
    let mut out: Vec<String> = Vec::new();
    let mut i: usize = 0;
    reveal(Seq::filter);
    assert(asked.take(0).filter(keep) =~= texts(out@));
    while i < capabilities.len()
        invariant
            i <= capabilities@.len(),
            asked == texts(capabilities@),
            texts(supported@) == client_capabilities(),
            keep == (|c: Seq<char>| client_capabilities().contains(c)),
            texts(out@) == asked.take(i as int).filter(keep),
        decreases capabilities@.len() - i,
    {
        reveal(Seq::filter);
        let ghost before = texts(out@);
        assert(asked.take(i + 1).drop_last() =~= asked.take(i as int));
        assert(asked.take(i + 1).last() == capabilities@[i as int]@);
        if crate::text::holds_text(&supported, capabilities[i].as_str()) {
            out.push(capabilities[i].clone());
            assert(texts(out@) =~= before.push(capabilities@[i as int]@));
        }
        i = i + 1;
    }
    assert(asked.take(i as int) =~= asked);
    out
}

/// Normalizing capabilities twice changes nothing more, and keeps only
/// supported ones.
pub proof fn law_normalized_capabilities_are_supported(capabilities: Seq<Seq<char>>)
    ensures
        forall|i: int|
            0 <= i < supported_among(capabilities).len() ==> client_capabilities().contains(
                #[trigger] supported_among(capabilities)[i],
            ),
        supported_among(supported_among(capabilities)) == supported_among(capabilities),
{
    let keep = |c: Seq<char>| client_capabilities().contains(c);
    let kept = supported_among(capabilities);
    assert forall|i: int| 0 <= i < kept.len() implies keep(#[trigger] kept[i]) by {
        capabilities.lemma_filter_pred(keep, i);
    }
    lemma_filter_all(kept, keep);
}

proof fn lemma_filter_all(s: Seq<Seq<char>>, keep: spec_fn(Seq<char>) -> bool)
    requires
        forall|i: int| 0 <= i < s.len() ==> keep(#[trigger] s[i]),
    ensures
        s.filter(keep) == s,
    decreases s.len(),
{
    reveal(Seq::filter);
    if s.len() > 0 {
        lemma_filter_all(s.drop_last(), keep);
        assert(s.drop_last().push(s.last()) =~= s);
    }
}

/// The capabilities of a client that names none.
pub fn default_client_capabilities() -> (r: Vec<String>)
    ensures
        texts(r@) == seq!["attach_snapshot"@, "event_sequence"@],
{
    let r: Vec<String> = vec!["attach_snapshot".to_owned(), "event_sequence".to_owned()];
    assert(texts(r@) =~= seq!["attach_snapshot"@, "event_sequence"@]);
    r
}

/// The capabilities a server has beyond those it shares with its clients.
pub open spec fn server_only_capabilities() -> Seq<Seq<char>> {
    seq![
        "delete_rlm_subagent"@,
        "heartbeat_catalog"@,
        "heartbeat_management"@,
        "model_catalog"@,
        "side_question_transcript"@,
        "transient_bash"@,
        "session_input_admission"@,
        "prompt_admission_cancellation"@,
        "owned_prompt_cancellation"@,
        "queue_message_mutation"@,
        "authoritative_child_roster"@,
        "owned_session_recovery_context"@,
        "rlm_quiescence_barrier"@,
        "session_input_pause"@,
        "acp_mcp_servers"@,
        "agent_roster"@,
        "direct_peer_transport"@,
    ]
}

/// The capabilities of this server: the supported client capabilities, then
/// its own.
pub fn default_server_capabilities() -> (r: Vec<String>)
    ensures
        texts(r@) == client_capabilities() + server_only_capabilities(),
{
    let mut r = supported_client_capabilities();
    let own: Vec<String> =
        vec![
        "delete_rlm_subagent".to_owned(),
        "heartbeat_catalog".to_owned(),
        "heartbeat_management".to_owned(),
        "model_catalog".to_owned(),
        "side_question_transcript".to_owned(),
        "transient_bash".to_owned(),
        "session_input_admission".to_owned(),
        "prompt_admission_cancellation".to_owned(),
        "owned_prompt_cancellation".to_owned(),
        "queue_message_mutation".to_owned(),
        "authoritative_child_roster".to_owned(),
        "owned_session_recovery_context".to_owned(),
        "rlm_quiescence_barrier".to_owned(),
        "session_input_pause".to_owned(),
        "acp_mcp_servers".to_owned(),
        "agent_roster".to_owned(),
        "direct_peer_transport".to_owned(),
    ];
    assert(texts(own@) =~= server_only_capabilities());
    let ghost start = texts(r@);
    let mut i: usize = 0;
    while i < own.len()
        invariant
            i <= own@.len(),
            texts(own@) == server_only_capabilities(),
            start == client_capabilities(),
            texts(r@) == start + server_only_capabilities().take(i as int),
        decreases own@.len() - i,
    {
        let ghost before = texts(r@);
        r.push(own[i].clone());
        assert(texts(r@) =~= before.push(texts(own@)[i as int]));
        i = i + 1;
        assert(texts(r@) =~= start + server_only_capabilities().take(i as int));
    }
    assert(server_only_capabilities().take(i as int) =~= server_only_capabilities());
    r
}

/// The position of the last closing parenthesis of a text.
pub open spec fn last_paren(s: Seq<char>) -> Option<int>
    decreases s.len(),
{
    if s.len() == 0 {
        None
    } else if s.last() == ')' {
        Some(s.len() - 1)
    } else {
        last_paren(s.drop_last())
    }
}

/// Whether a process status line goes on behind its command name: two
/// characters at least, the first of them plain.
pub open spec fn has_stat_fields(stat: Seq<char>) -> bool {
    match last_paren(stat) {
        None => true,
        Some(end) => end + 2 <= stat.len() && stat[end + 1] <= '\u{7f}',
    }
}

/// The start identity in a process status line: the twentieth field behind the
/// command name, marked as a process start time.
pub open spec fn start_id_in(stat: Seq<char>) -> Option<Seq<char>> {
    match last_paren(stat) {
        None => None,
        Some(end) => {
            let fields = split_on(stat.skip(end + 2), ' ');
            if fields.len() > 19 && fields[19].len() > 0 {
                Some("proc:"@ + fields[19])
            } else {
                None
            }
        },
    }
}

/// The position of the last closing parenthesis of a text.
fn find_last_paren(chars: &Vec<char>) -> (r: Option<usize>)
    ensures
        match r {
            Some(i) => last_paren(chars@) == Some(i as int) && i < chars@.len(),
            None => last_paren(chars@) is None,
        },
{
    let mut n: usize = chars.len();
    assert(chars@.take(n as int) =~= chars@);
    while n > 0
        invariant
            n <= chars@.len(),
            last_paren(chars@) == last_paren(chars@.take(n as int)),
        decreases n,
    {
        let ghost head = chars@.take(n as int);
        assert(head.last() == chars@[n - 1]);
        assert(head.drop_last() =~= chars@.take(n - 1));
        if chars[n - 1] == ')' {
            return Some(n - 1);
        }
        n = n - 1;
    }
    None
}

/// Whether a process status line goes on behind its command name.
pub fn stat_has_fields(stat: &str) -> (r: bool)
    ensures
        r == has_stat_fields(stat@),
{
    let chars = crate::text::chars_of(stat);
    match find_last_paren(&chars) {
        None => true,
        Some(end) => chars.len() - end >= 2 && chars[end + 1] <= '\u{7f}',
    }
}

/// The start identity of a process, out of its status line.
pub fn process_start_id(stat: &str) -> (r: Option<String>)
    requires
        has_stat_fields(stat@),
    ensures
        opt_text(r) == start_id_in(stat@),
{
    let chars = crate::text::chars_of(stat);
    match find_last_paren(&chars) {
        None => None,
        Some(end) => {
            let length: usize = chars.len();
            assert(end + 2 <= length);
            let rest = crate::text::text_of(&chars, end + 2, length);
            assert(rest@ =~= stat@.skip(end + 2));
            let fields = split_text(rest.as_str(), ' ');
            if fields.len() > 19 {
                assert(texts(fields@)[19] == fields@[19]@);
                if crate::text::is_empty_text(fields[19].as_str()) {
                    None
                } else {
                    Some(concat2("proc:", fields[19].as_str()))
                }
            } else {
                None
            }
        },
    }
}

/// A position in a session's event stream.
#[derive(Debug, PartialEq, Eq)]
pub struct DaemonEventCursor {
    pub generation: String,
    pub sequence: u64,
}

/// The mathematical position behind a [`DaemonEventCursor`].
#[verifier::ext_equal]
pub struct CursorView {
    pub generation: Seq<char>,
    pub sequence: u64,
}

impl View for DaemonEventCursor {
    type V = CursorView;

    open spec fn view(&self) -> CursorView {
        CursorView { generation: self.generation@, sequence: self.sequence }
    }
}

/// An optional position.
pub open spec fn opt_cursor(cursor: Option<DaemonEventCursor>) -> Option<CursorView> {
    match cursor {
        Some(cursor) => Some(cursor@),
        None => None,
    }
}

impl DaemonEventCursor {
    fn copy(&self) -> (r: DaemonEventCursor)
        ensures
            r == *self,
    {
        DaemonEventCursor { generation: self.generation.clone(), sequence: self.sequence }
    }
}

/// The metadata of one session event.
#[derive(Debug, PartialEq, Eq)]
pub struct DaemonEventMeta {
    pub id: String,
    pub protocol: DaemonProtocolInfo,
    pub active_session_id: Option<String>,
    pub sequence: Option<u64>,
    pub cursor: Option<DaemonEventCursor>,
    pub emitted_at: String,
    pub replayed: Option<bool>,
}

/// Whether metadata is that of an event of a session.
pub open spec fn is_meta(
    meta: DaemonEventMeta,
    active_session_id: Seq<char>,
    sequence: u64,
    emitted_at: Option<&str>,
    generation: Option<&str>,
    now: Seq<char>,
) -> bool {
    &&& meta.id@ == active_session_id + ":"@ + decimal(sequence as nat)
    &&& meta.protocol.name@ == DAEMON_PROTOCOL_NAME@
    &&& meta.protocol.version == DAEMON_PROTOCOL_VERSION
    &&& opt_text(meta.active_session_id) == Some(active_session_id)
    &&& meta.sequence == Some(sequence)
    &&& opt_cursor(meta.cursor) == Some(
        (CursorView {
            generation: match generation {
                Some(generation) => generation@,
                None => active_session_id,
            },
            sequence,
        }),
    )
    &&& meta.emitted_at@ == match emitted_at {
        Some(at) => at@,
        None => now,
    }
    &&& meta.replayed is None
}

/// The metadata of the event `sequence` of a session: its id joins the two, its
/// position is in the given generation or else in the session's own, and its
/// time is the given one or else `now`.
pub fn create_daemon_event_meta(
    active_session_id: &str,
    sequence: u64,
    emitted_at: Option<&str>,
    generation: Option<&str>,
    now: &str,
) -> (r: DaemonEventMeta)
    ensures
        is_meta(r, active_session_id@, sequence, emitted_at, generation, now@),
{
    let generation = match generation {
        Some(generation) => generation.to_owned(),
        None => active_session_id.to_owned(),
    };
    let emitted_at = match emitted_at {
        Some(at) => at.to_owned(),
        None => now.to_owned(),
    };
    DaemonEventMeta {
        id: concat3(active_session_id, ":", decimal_text(sequence).as_str()),
        protocol: current_protocol_info(),
        active_session_id: Some(active_session_id.to_owned()),
        sequence: Some(sequence),
        cursor: Some(DaemonEventCursor { generation, sequence }),
        emitted_at,
        replayed: None,
    }
}

/// Where a returning client stopped reading.
#[derive(Debug, PartialEq, Eq)]
pub struct DaemonResumeCursor {
    pub active_session_id: Option<String>,
    pub generation: Option<String>,
    pub sequence: Option<u64>,
    pub event_sequence: Option<u64>,
}

/// Whether a client's stream goes on without a gap.
#[derive(Debug, Clone, Copy, PartialEq, Eq, Structural)]
pub enum DaemonReplayStatus {
    Complete,
    Unavailable,
}

/// What a returning client is told of the events it missed.
#[derive(Debug, PartialEq, Eq)]
pub struct DaemonReplayInfo {
    pub status: DaemonReplayStatus,
    pub from_sequence: Option<u64>,
    pub to_sequence: u64,
    pub from_cursor: Option<DaemonEventCursor>,
    pub to_cursor: Option<DaemonEventCursor>,
    pub reason: Option<String>,
}

/// The mathematical value behind a [`DaemonReplayInfo`].
#[verifier::ext_equal]
pub struct ReplayView {
    pub status: DaemonReplayStatus,
    pub from_sequence: Option<u64>,
    pub to_sequence: u64,
    pub from_cursor: Option<CursorView>,
    pub to_cursor: Option<CursorView>,
    pub reason: Option<Seq<char>>,
}

impl View for DaemonReplayInfo {
    type V = ReplayView;

    open spec fn view(&self) -> ReplayView {
        ReplayView {
            status: self.status,
            from_sequence: self.from_sequence,
            to_sequence: self.to_sequence,
            from_cursor: opt_cursor(self.from_cursor),
            to_cursor: opt_cursor(self.to_cursor),
            reason: opt_text(self.reason),
        }
    }
}

/// The sequence a client stopped at: its cursor's own, else the event's, else
/// the start.
pub open spec fn resume_sequence(resume: DaemonResumeCursor) -> u64 {
    match resume.sequence {
        Some(sequence) => sequence,
        None => match resume.event_sequence {
            Some(sequence) => sequence,
            None => 0,
        },
    }
}

/// Why a client's stream has a gap, where it has one: another generation comes
/// first, then a cursor ahead of the session, then missed events.
pub open spec fn replay_gap(
    resume: DaemonResumeCursor,
    last_event_sequence: u64,
    generation: Seq<char>,
) -> Option<Seq<char>> {
    let at = resume_sequence(resume);
    if resume.generation is Some && resume.generation->0@ != generation {
        Some("event_generation_changed"@)
    } else if at > last_event_sequence {
        Some("resume_cursor_ahead_of_session"@)
    } else if at < last_event_sequence {
        Some("event_replay_not_available"@)
    } else {
        None
    }
}

/// What a returning client is told.
pub open spec fn replay_info(
    resume: Option<DaemonResumeCursor>,
    last_event_sequence: u64,
    generation: Seq<char>,
) -> ReplayView {
    let to_cursor = Some(CursorView { generation, sequence: last_event_sequence });
    match resume {
        None => ReplayView {
            status: DaemonReplayStatus::Complete,
            from_sequence: None,
            to_sequence: last_event_sequence,
            from_cursor: None,
            to_cursor,
            reason: None,
        },
        Some(resume) => {
            let gap = replay_gap(resume, last_event_sequence, generation);
            ReplayView {
                status: if gap is Some {
                    DaemonReplayStatus::Unavailable
                } else {
                    DaemonReplayStatus::Complete
                },
                from_sequence: Some(resume_sequence(resume)),
                to_sequence: last_event_sequence,
                from_cursor: match resume.generation {
                    Some(from) => Some(
                        CursorView { generation: from@, sequence: resume_sequence(resume) },
                    ),
                    None => None,
                },
                to_cursor,
                reason: gap,
            }
        },
    }
}

/// What a returning client is told of the events it missed.
pub fn create_daemon_replay_info(
    resume_cursor: Option<&DaemonResumeCursor>,
    last_event_sequence: u64,
    generation: &str,
) -> (r: DaemonReplayInfo)
    ensures
        r@ == replay_info(
            match resume_cursor {
                Some(resume) => Some(*resume),
                None => None,
            },
            last_event_sequence,
            generation@,
        ),
{
    let to_cursor = DaemonEventCursor {
        generation: generation.to_owned(),
        sequence: last_event_sequence,
    };
    let resume = match resume_cursor {
        Some(resume) => resume,
        None => {
            return DaemonReplayInfo {
                status: DaemonReplayStatus::Complete,
                from_sequence: None,
                to_sequence: last_event_sequence,
                from_cursor: None,
                to_cursor: Some(to_cursor),
                reason: None,
            };
        },
    };
    let at: u64 = match resume.sequence {
        Some(sequence) => sequence,
        None => match resume.event_sequence {
            Some(sequence) => sequence,
            None => 0,
        },
    };
    let mut changed = false;
    let from_cursor: Option<DaemonEventCursor> = match &resume.generation {
        Some(from) => {
            changed = !same_text(from.as_str(), generation);
            Some(DaemonEventCursor { generation: from.clone(), sequence: at })
        },
        None => None,
    };
    let reason: Option<&str> = if changed {
        Some("event_generation_changed")
    } else if at > last_event_sequence {
        Some("resume_cursor_ahead_of_session")
    } else if at < last_event_sequence {
        Some("event_replay_not_available")
    } else {
        None
    };
    let status = if reason.is_some() {
        DaemonReplayStatus::Unavailable
    } else {
        DaemonReplayStatus::Complete
    };
    DaemonReplayInfo {
        status,
        from_sequence: Some(at),
        to_sequence: last_event_sequence,
        from_cursor,
        to_cursor: Some(to_cursor),
        reason: own_opt(reason),
    }
}

/// A stream is complete exactly where no gap is named; a client that resumes
/// at the very position it is told to resume from has none.
pub proof fn law_replay_resumes_where_it_ended(
    resume: Option<DaemonResumeCursor>,
    last_event_sequence: u64,
    generation: Seq<char>,
    again: DaemonResumeCursor,
)
    ensures
        ({
            let told = replay_info(resume, last_event_sequence, generation);
            &&& told.status == DaemonReplayStatus::Complete <==> told.reason is None
            &&& told.to_sequence == last_event_sequence
            &&& (opt_text(again.generation) == Some(told.to_cursor->0.generation)
                && again.sequence == Some(told.to_cursor->0.sequence)) ==> replay_info(
                Some(again),
                last_event_sequence,
                generation,
            ).status == DaemonReplayStatus::Complete
        }),
{
}

/// A response to a command.
#[derive(Debug, PartialEq, Eq)]
pub struct DaemonResponse {
    pub id: Option<String>,
    pub command: String,
    pub success: bool,
    pub data: Option<Json>,
    pub error: Option<String>,
    pub error_info: Option<Json>,
}

/// The mathematical response behind a [`DaemonResponse`].
#[verifier::ext_equal]
pub struct ResponseView {
    pub id: Option<Seq<char>>,
    pub command: Seq<char>,
    pub success: bool,
    pub data: Option<JsonView>,
    pub error: Option<Seq<char>>,
    pub error_info: Option<JsonView>,
}

impl View for DaemonResponse {
    type V = ResponseView;

    open spec fn view(&self) -> ResponseView {
        ResponseView {
            id: opt_text(self.id),
            command: self.command@,
            success: self.success,
            data: opt_view(self.data),
            error: opt_text(self.error),
            error_info: opt_view(self.error_info),
        }
    }
}

/// A success with its data.
pub open spec fn success(
    id: Option<Seq<char>>,
    command: Seq<char>,
    data: Option<JsonView>,
) -> ResponseView {
    ResponseView { id, command, success: true, data, error: None, error_info: None }
}

/// A failure with its error sentence.
pub open spec fn failure(
    id: Option<Seq<char>>,
    command: Seq<char>,
    error: Seq<char>,
) -> ResponseView {
    ResponseView { id, command, success: false, data: None, error: Some(error), error_info: None }
}

/// A success with its data.
pub fn response_success(id: Option<&str>, command: &str, data: Option<Json>) -> (r: DaemonResponse)
    ensures
        r@ == success(opt_str(id), command@, opt_view(data)),
{
    DaemonResponse {
        id: own_opt(id),
        command: command.to_owned(),
        success: true,
        data,
        error: None,
        error_info: None,
    }
}

/// A failure with its error sentence and what else is known of the error.
pub fn response_failure(
    id: Option<&str>,
    command: &str,
    error: &str,
    error_info: Option<Json>,
) -> (r: DaemonResponse)
    ensures
        r@ == (ResponseView {
            error_info: opt_view(error_info),
            ..failure(opt_str(id), command@, error@)
        }),
{
    DaemonResponse {
        id: own_opt(id),
        command: command.to_owned(),
        success: false,
        data: None,
        error: Some(error.to_owned()),
        error_info,
    }
}

/// A text member where there is a text.
pub open spec fn opt_string(text: Option<Seq<char>>) -> Option<JsonView> {
    match text {
        Some(text) => Some(JsonView::Str(text)),
        None => None,
    }
}

/// The line that carries a response.
pub open spec fn line_of(response: ResponseView) -> JsonView {
    JsonView::object().field_opt("id"@, opt_string(response.id)).field(
        "command"@,
        JsonView::Str(response.command),
    ).field("success"@, JsonView::Bool(response.success)).field_opt(
        "data"@,
        response.data,
    ).field_opt("error"@, opt_string(response.error)).field_opt(
        "errorInfo"@,
        response.error_info,
    ).field("type"@, JsonView::Str("response"@))
}

/// The line that carries a response.
pub fn response_line(response: &DaemonResponse) -> (r: Json)
    ensures
        r@ == line_of(response@),
{
    Json::object().field_opt_str("id", crate::text::as_opt_str(&response.id)).field(
        "command",
        Json::string(response.command.as_str()),
    ).field("success", Json::Bool(response.success)).field_opt(
        "data",
        crate::json::duplicate_opt(&response.data),
    ).field_opt_str("error", crate::text::as_opt_str(&response.error)).field_opt(
        "errorInfo",
        crate::json::duplicate_opt(&response.error_info),
    ).field("type", Json::string("response"))
}

/// The metadata of an event, by value.
pub open spec fn meta_json(meta: DaemonEventMeta) -> JsonView {
    JsonView::object().field("id"@, JsonView::Str(meta.id@)).field(
        "protocol"@,
        JsonView::object().field("name"@, JsonView::Str(meta.protocol.name@)).field(
            "version"@,
            JsonView::uint(meta.protocol.version),
        ),
    ).field_opt("activeSessionId"@, opt_string(opt_text(meta.active_session_id))).field_opt(
        "sequence"@,
        match meta.sequence {
            Some(sequence) => Some(JsonView::uint(sequence)),
            None => None,
        },
    ).field_opt(
        "cursor"@,
        match meta.cursor {
            Some(cursor) => Some(
                JsonView::object().field("generation"@, JsonView::Str(cursor.generation@)).field(
                    "sequence"@,
                    JsonView::uint(cursor.sequence),
                ),
            ),
            None => None,
        },
    ).field("emittedAt"@, JsonView::Str(meta.emitted_at@)).field_opt(
        "replayed"@,
        match meta.replayed {
            Some(replayed) => Some(JsonView::Bool(replayed)),
            None => None,
        },
    )
}

/// The metadata of an event as it is sent.
pub fn event_meta_value(meta: &DaemonEventMeta) -> (r: Json)
    ensures
        r@ == meta_json(*meta),
{
    let protocol = Json::object().field("name", Json::string(meta.protocol.name.as_str())).field(
        "version",
        Json::uint(meta.protocol.version),
    );
    let sequence = match meta.sequence {
        Some(sequence) => Some(Json::uint(sequence)),
        None => None,
    };
    let cursor = match &meta.cursor {
        Some(cursor) => Some(
            Json::object().field("generation", Json::string(cursor.generation.as_str())).field(
                "sequence",
                Json::uint(cursor.sequence),
            ),
        ),
        None => None,
    };
    let replayed = match meta.replayed {
        Some(replayed) => Some(Json::Bool(replayed)),
        None => None,
    };
    Json::object().field("id", Json::string(meta.id.as_str())).field("protocol", protocol).field_opt_str(
        "activeSessionId",
        crate::text::as_opt_str(&meta.active_session_id),
    ).field_opt("sequence", sequence).field_opt("cursor", cursor).field(
        "emittedAt",
        Json::string(meta.emitted_at.as_str()),
    ).field_opt("replayed", replayed)
}

/// A session event as it is sent.
pub open spec fn event_json(
    active_session_id: Seq<char>,
    event: JsonView,
    meta: DaemonEventMeta,
) -> JsonView {
    JsonView::object().field("type"@, JsonView::Str("session_event"@)).field(
        "activeSessionId"@,
        JsonView::Str(active_session_id),
    ).field("event"@, event).field("meta"@, meta_json(meta))
}

/// A session event as it is sent.
pub fn session_event_value(active_session_id: &str, event: Json, meta: &DaemonEventMeta) -> (r:
    Json)
    ensures
        r@ == event_json(active_session_id@, event@, *meta),
{
    Json::object().field("type", Json::string("session_event")).field(
        "activeSessionId",
        Json::string(active_session_id),
    ).field("event", event).field("meta", event_meta_value(meta))
}

/// A status line as it is sent.
pub open spec fn status_json(
    active_session_id: Seq<char>,
    recap: Seq<char>,
    meta: DaemonEventMeta,
) -> JsonView {
    JsonView::object().field("type"@, JsonView::Str("session_status"@)).field(
        "activeSessionId"@,
        JsonView::Str(active_session_id),
    ).field_opt(
        "recap"@,
        if recap.len() == 0 {
            None
        } else {
            Some(JsonView::Str(recap))
        },
    ).field("meta"@, meta_json(meta))
}

/// A status line as it is sent; an empty recap is left out.
pub fn session_status_value(active_session_id: &str, recap: &str, meta: &DaemonEventMeta) -> (r:
    Json)
    ensures
        r@ == status_json(active_session_id@, recap@, *meta),
{
    let recap = if crate::text::is_empty_text(recap) {
        None
    } else {
        Some(recap)
    };
    Json::object().field("type", Json::string("session_status")).field(
        "activeSessionId",
        Json::string(active_session_id),
    ).field_opt_str("recap", recap).field("meta", event_meta_value(meta))
}

} // verus!
