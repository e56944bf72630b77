//! One connection that hosts at most one session: what is admitted when, how a
//! prompt turn goes, and the frames that answer.
use vstd::prelude::*;

use crate::ids::fresh_id;
use crate::json::{Json, JsonView, Number, NumberView};
use crate::text::{concat2, is_empty_text, opt_str, opt_text, same_text};

use session::AcpSession;

pub mod session;

verus! {

/// The code of a request whose method is not known.
pub const METHOD_NOT_FOUND: i64 = -32601;

/// The code of a request whose parameters are wrong.
pub const INVALID_PARAMS: i64 = -32602;

/// The code of a request that failed.
pub const INTERNAL_ERROR: i64 = -32603;

/// The frame of a result.
pub open spec fn result_json(id: JsonView, result: JsonView) -> JsonView {
    JsonView::object().field("jsonrpc"@, JsonView::Str("2.0"@)).field("id"@, id).field(
        "result"@,
        result,
    )
}

/// The frame of an error.
pub open spec fn error_json(
    id: JsonView,
    code: i64,
    message: Seq<char>,
    data: JsonView,
) -> JsonView {
    JsonView::object().field("jsonrpc"@, JsonView::Str("2.0"@)).field("id"@, id).field(
        "error"@,
        JsonView::object().field("code"@, JsonView::Number(NumberView::Negative(code))).field(
            "message"@,
            JsonView::Str(message),
        ).field("data"@, data),
    )
}

/// The frame of a result.
pub fn result_frame(id: &Json, result: Json) -> (r: Json)
    ensures
        r@ == result_json(id@, result@),
{
    Json::object().field("jsonrpc", Json::string("2.0")).field("id", id.duplicate()).field(
        "result",
        result,
    )
}

/// The frame of an error.
pub fn error_frame(id: &Json, code: i64, message: &str, data: Json) -> (r: Json)
    ensures
        r@ == error_json(id@, code, message@, data@),
{
    Json::object().field("jsonrpc", Json::string("2.0")).field("id", id.duplicate()).field(
        "error",
        Json::object().field("code", Json::Number(Number::Negative(code))).field(
            "message",
            Json::string(message),
        ).field("data", data),
    )
}

/// The error of a request that failed.
pub open spec fn internal_json(id: JsonView, details: Seq<char>) -> JsonView {
    error_json(
        id,
        INTERNAL_ERROR,
        "Internal error"@,
        JsonView::object().field("details"@, JsonView::Str(details)),
    )
}

/// The error of a request that failed.
pub fn internal_error(id: &Json, details: &str) -> (r: Json)
    ensures
        r@ == internal_json(id@, details@),
{
    error_frame(
        id,
        INTERNAL_ERROR,
        "Internal error",
        Json::object().field("details", Json::string(details)),
    )
}

/// The error of a request whose method is not known.
pub fn method_not_found(id: &Json, method: &str) -> (r: Json)
    ensures
        r@ == error_json(
            id@,
            METHOD_NOT_FOUND,
            "\"Method not found\": "@ + method@,
            JsonView::object().field("method"@, JsonView::Str(method@)),
        ),
{
    error_frame(
        id,
        METHOD_NOT_FOUND,
        concat2("\"Method not found\": ", method).as_str(),
        Json::object().field("method", Json::string(method)),
    )
}

/// The requests that are served.
#[derive(Debug, Clone, Copy, PartialEq, Eq, Structural)]
pub enum AcpMethod {
    Initialize,
    SessionNew,
    SessionPrompt,
    SessionClose,
}

/// The request of a method, where it is one.
pub open spec fn method_of(method: Seq<char>) -> Option<AcpMethod> {
    if method == "initialize"@ {
        Some(AcpMethod::Initialize)
    } else if method == "session/new"@ {
        Some(AcpMethod::SessionNew)
    } else if method == "session/prompt"@ {
        Some(AcpMethod::SessionPrompt)
    } else if method == "session/close"@ {
        Some(AcpMethod::SessionClose)
    } else {
        None
    }
}

/// Whether a method, or its refusal, is the one of a request.
pub open spec fn is_request(
    result: Result<AcpMethod, Json>,
    id: JsonView,
    method: Seq<char>,
) -> bool {
    match result {
        Ok(got) => method_of(method) == Some(got),
        Err(frame) => method_of(method) is None && frame@ == error_json(
            id,
            METHOD_NOT_FOUND,
            "\"Method not found\": "@ + method,
            JsonView::object().field("method"@, JsonView::Str(method)),
        ),
    }
}

/// Which request a method is; one that is not known gives its error.
pub fn handle_request(id: &Json, method: &str) -> (r: Result<AcpMethod, Json>)
    ensures
        is_request(r, id@, method@),
{
    if same_text(method, "initialize") {
        Ok(AcpMethod::Initialize)
    } else if same_text(method, "session/new") {
        Ok(AcpMethod::SessionNew)
    } else if same_text(method, "session/prompt") {
        Ok(AcpMethod::SessionPrompt)
    } else if same_text(method, "session/close") {
        Ok(AcpMethod::SessionClose)
    } else {
        Err(method_not_found(id, method))
    }
}

/// What stands where a protocol version should, where it is no number.
pub open spec fn wrong_version(params: JsonView) -> Option<Seq<char>> {
    match params.get("protocolVersion"@) {
        None => Some("undefined"@),
        Some(JsonView::Number(_)) => None,
        Some(JsonView::Str(_)) => Some("string"@),
        Some(JsonView::Bool(_)) => Some("boolean"@),
        Some(JsonView::Null) => Some("null"@),
        Some(_) => Some("object"@),
    }
}

/// The error about a protocol version that is no number.
pub open spec fn version_error(id: JsonView, received: Seq<char>) -> JsonView {
    error_json(
        id,
        INVALID_PARAMS,
        "Invalid params"@,
        JsonView::object().field("_errors"@, JsonView::Array(Seq::empty())).field(
            "protocolVersion"@,
            JsonView::object().field(
                "_errors"@,
                JsonView::Array(
                    seq![
                        JsonView::Str("Invalid input: expected number, received "@ + received),
                    ],
                ),
            ),
        ),
    )
}

/// Check the parameters of `initialize`: the protocol version must be a number.
pub fn validate_initialize(id: &Json, params: &Json) -> (r: Result<(), Json>)
    ensures
        match r {
            Ok(_) => wrong_version(params@) is None,
            Err(frame) => wrong_version(params@) matches Some(received) && frame@ == version_error(
                id@,
                received,
            ),
        },
{
    let received = match params.get("protocolVersion") {
        None => "undefined",
        Some(version) => match version {
            Json::Number(_) => {
                return Ok(());
            },
            Json::Str(_) => "string",
            Json::Bool(_) => "boolean",
            Json::Null => "null",
            Json::Array(_) => {
                proof {
                    crate::json::lemma_array_view(*version);
                }
                "object"
            },
            Json::Object(_) => {
                proof {
                    crate::json::lemma_object_view(*version);
                }
                "object"
            },
        },
    };
    let text = Json::string(concat2("Invalid input: expected number, received ", received).as_str());
    let ghost text_view = text@;
    let errors: Vec<Json> = vec![text];
    proof {
        crate::json::lemma_items_view(errors@);
        assert(crate::json::items_view(errors@) =~= seq![text_view]);
    }
    Err(
        error_frame(
            id,
            INVALID_PARAMS,
            "Invalid params",
            Json::object().field("_errors", Json::empty_array()).field(
                "protocolVersion",
                Json::object().field("_errors", Json::array(errors)),
            ),
        ),
    )
}

// ---------------------------------------------------------------------------
// The hosted session
// ---------------------------------------------------------------------------

/// The hosted session, and whether a prompt turn of it runs.
#[derive(Debug, PartialEq, Eq)]
pub struct SessionEntry {
    pub session: AcpSession,
    pub prompt_running: bool,
}

/// What a connection hosts, and what is under way.
#[derive(Debug, PartialEq, Eq)]
pub struct ConnectionState {
    pub session: Option<SessionEntry>,
    pub session_new_in_flight: bool,
    pub session_close_in_flight: bool,
}

/// The mathematical entry behind a [`SessionEntry`].
#[verifier::ext_equal]
pub struct HostedView {
    pub id: Seq<char>,
    pub prompt_running: bool,
    pub cancel_requested: bool,
}

/// The mathematical state behind a [`ConnectionState`].
#[verifier::ext_equal]
pub struct ConnectionView {
    pub session: Option<HostedView>,
    pub session_new_in_flight: bool,
    pub session_close_in_flight: bool,
}

impl View for SessionEntry {
    type V = HostedView;

    open spec fn view(&self) -> HostedView {
        HostedView {
            id: self.session.id@,
            prompt_running: self.prompt_running,
            cancel_requested: self.session.cancelled,
        }
    }
}

impl View for ConnectionState {
    type V = ConnectionView;

    open spec fn view(&self) -> ConnectionView {
        ConnectionView {
            session: match self.session {
                Some(entry) => Some(entry@),
                None => None,
            },
            session_new_in_flight: self.session_new_in_flight,
            session_close_in_flight: self.session_close_in_flight,
        }
    }
}

impl ConnectionView {
    /// Whether the single session's place is free.
    pub open spec fn vacant(self) -> bool {
        self.session is None && !self.session_new_in_flight && !self.session_close_in_flight
    }

    /// Whether the state is one that a connection can be in: a session that is
    /// being admitted has the place to itself.
    pub open spec fn inv(self) -> bool {
        self.session_new_in_flight ==> self.session is None && !self.session_close_in_flight
    }

    /// The state once a session is being admitted, where the place is free.
    pub open spec fn new_begun(self) -> ConnectionView {
        if self.vacant() {
            ConnectionView { session_new_in_flight: true, ..self }
        } else {
            self
        }
    }

    /// The state once a session was admitted or not.
    pub open spec fn new_finished(self, admitted: Option<Seq<char>>) -> ConnectionView {
        ConnectionView {
            session: match admitted {
                Some(id) => Some(HostedView { id, prompt_running: false, cancel_requested: false }),
                None => self.session,
            },
            session_new_in_flight: false,
            ..self
        }
    }

    /// The state once a prompt turn of a session runs or has ended.
    pub open spec fn with_prompt(self, session_id: Seq<char>, running: bool) -> ConnectionView {
        match self.session {
            Some(entry) if entry.id == session_id => ConnectionView {
                session: Some(HostedView { prompt_running: running, ..entry }),
                ..self
            },
            _ => self,
        }
    }

    /// Whether a cancellation is for the turn that runs, and the first.
    pub open spec fn cancels(self, session_id: Seq<char>) -> bool {
        self.session matches Some(entry) && entry.id == session_id && entry.prompt_running
            && !entry.cancel_requested
    }

    /// The state once a session was cancelled.
    pub open spec fn cancelled(self, session_id: Seq<char>) -> ConnectionView {
        if self.cancels(session_id) {
            ConnectionView {
                session: Some(HostedView { cancel_requested: true, ..self.session->0 }),
                ..self
            }
        } else {
            self
        }
    }

    /// The state once a close was asked for. While another close is under way
    /// nothing changes; otherwise the place is given up, and where the close is
    /// for the hosted session it is under way.
    pub open spec fn close_begun(self, session_id: Seq<char>) -> ConnectionView {
        if self.session_close_in_flight {
            self
        } else {
            ConnectionView {
                session: None,
                session_close_in_flight: self.session matches Some(entry) && entry.id
                    == session_id,
                ..self
            }
        }
    }
}

/// Why a second session is refused.
pub const ONE_SESSION: &'static str = "prime-agent ACP mode hosts one session per connection; start another prime-agent process for a second session";

/// Why a prompt is refused.
pub open spec fn prompt_refusal(state: ConnectionView, session_id: Seq<char>) -> Option<Seq<char>> {
    match state.session {
        None => Some("Unknown ACP session: "@ + session_id),
        Some(entry) => if state.session_close_in_flight {
            Some("ACP session is closing: "@ + session_id)
        } else if entry.prompt_running {
            Some("A prompt turn is already running for this ACP session"@)
        } else {
            None
        },
    }
}

/// What is done with a prompt.
#[derive(Debug, PartialEq, Eq)]
pub enum PromptAdmission {
    /// It is refused, for the reason given.
    Refuse(String),
    /// It came after a cancellation, which drops it.
    Cancelled,
    /// It is read, and its turn runs.
    Run,
}

/// What is done with a close.
#[derive(Debug, PartialEq, Eq)]
pub enum CloseAdmission {
    /// It is refused, for the reason given.
    Refuse(String),
    /// The session's work is stopped; a turn that runs is waited for.
    Close { prompt_running: bool },
}

impl ConnectionState {
    /// A connection that hosts nothing.
    pub fn new() -> (r: ConnectionState)
        ensures
            r@ == (ConnectionView {
                session: None,
                session_new_in_flight: false,
                session_close_in_flight: false,
            }),
    {
        ConnectionState {
            session: None,
            session_new_in_flight: false,
            session_close_in_flight: false,
        }
    }

    /// Take the single session's place, or say why it is not to be had.
    pub fn begin_session_new(&mut self, id: &Json) -> (r: Result<(), Json>)
        ensures
            final(self)@ == old(self)@.new_begun(),
            match r {
                Ok(_) => old(self)@.vacant(),
                Err(frame) => !old(self)@.vacant() && frame@ == internal_json(id@, ONE_SESSION@),
            },
    {
        if self.session.is_some() || self.session_new_in_flight || self.session_close_in_flight {
            return Err(internal_error(id, ONE_SESSION));
        }
        self.session_new_in_flight = true;
        Ok(())
    }

    /// The session was admitted under an id, or not.
    pub fn finish_session_new(&mut self, admitted: Option<String>)
        ensures
            final(self)@ == old(self)@.new_finished(opt_text(admitted)),
    {
        self.session_new_in_flight = false;
        match admitted {
            Some(id) => {
                self.session = Some(
                    SessionEntry { session: AcpSession::new(id), prompt_running: false },
                );
            },
            None => {},
        }
    }

    /// Whether an admission is what is done with a prompt.
    pub open spec fn is_prompt_admission(
        state: ConnectionView,
        admission: PromptAdmission,
        session_id: Seq<char>,
    ) -> bool {
        match admission {
            PromptAdmission::Refuse(message) => prompt_refusal(state, session_id) == Some(
                message@,
            ),
            PromptAdmission::Cancelled => prompt_refusal(state, session_id) is None
                && state.session->0.cancel_requested,
            PromptAdmission::Run => prompt_refusal(state, session_id) is None
                && !state.session->0.cancel_requested,
        }
    }

    /// What is done with a prompt: without a session it is unknown, a closing
    /// session takes none, and one turn runs at a time; after a cancellation a
    /// prompt is dropped.
    pub fn handle_session_prompt(&self, session_id: &str) -> (r: PromptAdmission)
        ensures
            Self::is_prompt_admission(self@, r, session_id@),
    {
        match &self.session {
            None => PromptAdmission::Refuse(concat2("Unknown ACP session: ", session_id)),
            Some(entry) => {
                if self.session_close_in_flight {
                    PromptAdmission::Refuse(concat2("ACP session is closing: ", session_id))
                } else if entry.prompt_running {
                    PromptAdmission::Refuse(
                        "A prompt turn is already running for this ACP session".to_owned(),
                    )
                } else if entry.session.cancel_requested() {
                    PromptAdmission::Cancelled
                } else {
                    PromptAdmission::Run
                }
            },
        }
    }

    fn set_prompt(&mut self, session_id: &str, running: bool)
        ensures
            final(self)@ == old(self)@.with_prompt(session_id@, running),
    {
        let hosted = match &self.session {
            Some(entry) => same_text(entry.session.id.as_str(), session_id),
            None => false,
        };
        if hosted {
            match &mut self.session {
                Some(entry) => {
                    entry.prompt_running = running;
                },
                None => {},
            }
        }
    }

    /// The turn of a prompt runs.
    pub fn start_prompt(&mut self, session_id: &str)
        ensures
            final(self)@ == old(self)@.with_prompt(session_id@, true),
    {
        self.set_prompt(session_id, true)
    }

    /// The turn of a prompt gave its place up.
    pub fn clear_prompt_slot(&mut self, session_id: &str)
        ensures
            final(self)@ == old(self)@.with_prompt(session_id@, false),
    {
        self.set_prompt(session_id, false)
    }

    /// Whether a connection takes a notification so, and cancels its turn by it.
    pub open spec fn is_notified(
        before: ConnectionView,
        after: ConnectionView,
        cancels: bool,
        method: Seq<char>,
        session_id: Seq<char>,
    ) -> bool {
        &&& cancels == (method == "session/cancel"@ && before.cancels(session_id))
        &&& after == if method == "session/cancel"@ {
            before.cancelled(session_id)
        } else {
            before
        }
    }

    /// Take a notification: whether it cancels the running turn. Only the
    /// addressed session is cancelled, only while a turn of it runs, and once.
    pub fn handle_notification(&mut self, method: &str, session_id: &str) -> (r: bool)
        ensures
            Self::is_notified(old(self)@, final(self)@, r, method@, session_id@),
    {
        if !same_text(method, "session/cancel") {
            return false;
        }
        let cancels = match &self.session {
            Some(entry) => same_text(entry.session.id.as_str(), session_id) && entry.prompt_running
                && !entry.session.cancel_requested(),
            None => false,
        };
        if cancels {
            match &mut self.session {
                Some(entry) => {
                    entry.session.request_cancel();
                },
                None => {},
            }
        }
        cancels
    }

    /// Whether a registry and an admission are what is done with a close.
    pub open spec fn is_close_admission(
        before: ConnectionView,
        after: ConnectionView,
        admission: CloseAdmission,
        session_id: Seq<char>,
    ) -> bool {
        &&& after == before.close_begun(session_id)
        &&& match admission {
            CloseAdmission::Refuse(message) => if before.session_close_in_flight {
                message@ == "ACP session is already closing: "@ + session_id
            } else {
                !(before.session matches Some(entry) && entry.id == session_id)
                    && message@ == "Unknown ACP session: "@ + session_id
            },
            CloseAdmission::Close { prompt_running } => !before.session_close_in_flight && (
            before.session matches Some(entry) && entry.id == session_id
                && entry.prompt_running == prompt_running),
        }
    }

    /// What is done with a close. A close that is not for the hosted session is
    /// refused, and the place is given up all the same.
    pub fn handle_session_close(&mut self, session_id: &str) -> (r: CloseAdmission)
        ensures
            Self::is_close_admission(old(self)@, final(self)@, r, session_id@),
    {
        if self.session_close_in_flight {
            return CloseAdmission::Refuse(concat2("ACP session is already closing: ", session_id));
        }
        let mut running = false;
        let mut hosted = false;
        match &self.session {
            Some(entry) => {
                hosted = same_text(entry.session.id.as_str(), session_id);
                running = entry.prompt_running;
            },
            None => {},
        }
        self.session = None;
        if hosted {
            self.session_close_in_flight = true;
            CloseAdmission::Close { prompt_running: running }
        } else {
            CloseAdmission::Refuse(concat2("Unknown ACP session: ", session_id))
        }
    }

    /// The close is done.
    pub fn finish_close(&mut self)
        ensures
            final(self)@ == (ConnectionView { session_close_in_flight: false, ..old(self)@ }),
    {
        self.session_close_in_flight = false;
    }

    /// The client went away: whether a session was hosted, whose work is
    /// stopped.
    pub fn teardown(&mut self) -> (r: bool)
        ensures
            r == (old(self)@.session is Some),
            final(self)@ == (ConnectionView { session: None, ..old(self)@ }),
    {
        let hosted = self.session.is_some();
        self.session = None;
        hosted
    }
}

/// A connection hosts one session: from every state it can be in, each step
/// leads to such a state again, and while a session is hosted, being admitted
/// or being closed, another one is refused and nothing changes.
pub proof fn law_one_session_per_connection(
    state: ConnectionView,
    session_id: Seq<char>,
    admitted: Option<Seq<char>>,
    running: bool,
)
    requires
        state.inv(),
    ensures
        state.new_begun().inv(),
        state.new_finished(admitted).inv(),
        state.with_prompt(session_id, running).inv(),
        state.cancelled(session_id).inv(),
        state.close_begun(session_id).inv(),
        !state.vacant() ==> state.new_begun() == state,
        !state.new_begun().vacant(),
{
}

/// One prompt turn runs at a time: while a turn of the hosted session runs every
/// further prompt is refused, and once it gave its place up the next one is not.
pub proof fn law_one_turn_at_a_time(state: ConnectionView, session_id: Seq<char>)
    requires
        state.session matches Some(entry) && entry.id == session_id,
        !state.session_close_in_flight,
    ensures
        prompt_refusal(state.with_prompt(session_id, true), session_id) is Some,
        prompt_refusal(state.with_prompt(session_id, false), session_id) is None,
{
}

/// A cancellation reaches the addressed turn only: it changes nothing where
/// another session is named or no turn runs, and a second one changes nothing.
pub proof fn law_cancellations_are_addressed(state: ConnectionView, session_id: Seq<char>)
    ensures
        !(state.session matches Some(entry) && entry.id == session_id) ==> state.cancelled(
            session_id,
        ) == state,
        state.cancelled(session_id).cancelled(session_id) == state.cancelled(session_id),
{
}

// ---------------------------------------------------------------------------
// Admitting a session
// ---------------------------------------------------------------------------

/// The device and the inode of a directory; none where either is not known.
pub open spec fn identity(metadata: Option<(u64, u64)>) -> Option<(u64, u64)> {
    match metadata {
        Some((dev, ino)) if dev != 0 && ino != 0 => Some((dev, ino)),
        _ => None,
    }
}

/// Whether two directories are the same.
pub open spec fn is_same_directory(
    requested: Seq<char>,
    actual: Seq<char>,
    requested_metadata: Option<(u64, u64)>,
    actual_metadata: Option<(u64, u64)>,
) -> bool {
    (requested == actual || (identity(requested_metadata) is Some && identity(
        requested_metadata,
    ) == identity(actual_metadata)))
}

/// Whether two directories are the same: by their canonical paths, or else by
/// their device and inode where both are known.
pub fn same_cwd(
    requested: &str,
    actual: &str,
    requested_metadata: Option<(u64, u64)>,
    actual_metadata: Option<(u64, u64)>,
) -> (r: bool)
    ensures
        r == is_same_directory(requested@, actual@, requested_metadata, actual_metadata),
{
    if same_text(requested, actual) {
        return true;
    }
    match (requested_metadata, actual_metadata) {
        (Some((left_dev, left_ino)), Some((right_dev, right_ino))) => left_dev != 0 && left_ino
            != 0 && right_dev != 0 && right_ino != 0 && left_dev == right_dev && left_ino
            == right_ino,
        _ => false,
    }
}

/// A session that was admitted, and the directories that differ where the client
/// asked for another one than the session works in.
#[derive(Debug, PartialEq, Eq)]
pub struct AdmittedSession {
    pub session_id: String,
    pub cwd_mismatch: Option<(String, String)>,
}

/// Whether a session, or the refusal of one, is what a request for one admits.
pub open spec fn is_admitted(
    result: Result<AdmittedSession, Json>,
    id: JsonView,
    has_mcp_servers: bool,
    requested_cwd: Option<Seq<char>>,
    is_same_cwd: bool,
    actual_cwd: Seq<char>,
) -> bool {
    match result {
        Ok(admitted) => {
            &&& !has_mcp_servers
            &&& crate::ids::is_id_text(admitted.session_id@)
            &&& match admitted.cwd_mismatch {
                Some((requested, actual)) => requested_cwd == Some(requested@)
                    && requested@.len() > 0 && !is_same_cwd && actual@ == actual_cwd,
                None => requested_cwd is None || requested_cwd->0.len() == 0 || is_same_cwd,
            }
        },
        Err(frame) => has_mcp_servers && frame@ == error_json(
            id,
            INVALID_PARAMS,
            "Invalid params"@,
            JsonView::object().field(
                "reason"@,
                JsonView::Str("MCP servers are unavailable in this ACP host"@),
            ),
        ),
    }
}

/// Admit a session under a fresh id. A client that brings tool servers is
/// refused; one that asks for another directory is told, and the session stays
/// in its own.
pub fn session_new(
    id: &Json,
    has_mcp_servers: bool,
    requested_cwd: Option<&str>,
    is_same_cwd: bool,
    actual_cwd: &str,
) -> (r: Result<AdmittedSession, Json>)
    ensures
        is_admitted(r, id@, has_mcp_servers, opt_str(requested_cwd), is_same_cwd, actual_cwd@),
{
    if has_mcp_servers {
        return Err(
            error_frame(
                id,
                INVALID_PARAMS,
                "Invalid params",
                Json::object().field(
                    "reason",
                    Json::string("MCP servers are unavailable in this ACP host"),
                ),
            ),
        );
    }
    let cwd_mismatch = match requested_cwd {
        Some(requested) => {
            if is_empty_text(requested) || is_same_cwd {
                None
            } else {
                Some((requested.to_owned(), actual_cwd.to_owned()))
            }
        },
        None => None,
    };
    Ok(AdmittedSession { session_id: fresh_id(), cwd_mismatch })
}

/// The answer to an admitted session.
pub open spec fn new_session_json(
    id: JsonView,
    session_id: Seq<char>,
    meta: Option<Json>,
) -> JsonView {
    result_json(
        id,
        JsonView::object().field("sessionId"@, JsonView::Str(session_id)).field_opt(
            "_meta"@,
            crate::json::opt_view(meta),
        ),
    )
}

/// The answer to an admitted session; the metadata tells of a working directory
/// that was asked for and is not the session's.
pub fn session_new_answer(id: &Json, session_id: &str, meta: Option<Json>) -> (r: Json)
    ensures
        r@ == new_session_json(id@, session_id@, meta),
{
    result_frame(
        id,
        Json::object().field("sessionId", Json::string(session_id)).field_opt("_meta", meta),
    )
}

// ---------------------------------------------------------------------------
// A prompt turn
// ---------------------------------------------------------------------------

/// Why a turn stopped.
#[derive(Debug, Clone, Copy, PartialEq, Eq, Structural)]
pub enum AcpStopReason {
    EndTurn,
    Cancelled,
}

/// The result of a prompt.
pub open spec fn stop_json(reason: AcpStopReason) -> JsonView {
    JsonView::object().field(
        "stopReason"@,
        JsonView::Str(
            match reason {
                AcpStopReason::EndTurn => "end_turn"@,
                AcpStopReason::Cancelled => "cancelled"@,
            },
        ),
    )
}

/// The result of a prompt.
pub fn stop_reason_response(reason: AcpStopReason) -> (r: Json)
    ensures
        r@ == stop_json(reason),
{
    Json::object().field(
        "stopReason",
        Json::string(
            match reason {
                AcpStopReason::EndTurn => "end_turn",
                AcpStopReason::Cancelled => "cancelled",
            },
        ),
    )
}

/// How a turn came out.
#[derive(Debug, Clone, Copy, PartialEq, Eq, Structural)]
pub enum PrimeAgentOutcome {
    Result,
    Error,
}

/// An update that is published around the end of a turn.
#[derive(Debug, Clone, Copy, PartialEq, Eq, Structural)]
pub enum TurnUpdate {
    /// The response follows; a terminal update follows it or not.
    ResponseBoundary { terminal_expected: bool, outcome: PrimeAgentOutcome },
    /// The turn is complete, and nothing of it is outstanding.
    Completion,
    /// Nothing of the turn is outstanding, and nothing follows.
    TerminalQuiescence { outcome: PrimeAgentOutcome },
}

/// Where a prompt turn is.
#[derive(Debug, PartialEq, Eq)]
pub enum PromptTurn {
    /// The prompt is handed to the session.
    Admitting,
    /// The prompt was refused: the boundary of its error is published.
    Refused { error: String },
    /// The turn runs.
    Settling,
    /// The turn settled: its boundary is published.
    Boundary { failure: Option<String> },
    /// Its completion is published.
    Completion { failure: Option<String> },
    /// Its terminal update is published.
    Terminal { failure: Option<String> },
    Finished,
}

/// The mathematical turn behind a [`PromptTurn`].
#[verifier::ext_equal]
pub enum PromptTurnView {
    Admitting,
    Refused { error: Seq<char> },
    Settling,
    Boundary { failure: Option<Seq<char>> },
    Completion { failure: Option<Seq<char>> },
    Terminal { failure: Option<Seq<char>> },
    Finished,
}

impl View for PromptTurn {
    type V = PromptTurnView;

    open spec fn view(&self) -> PromptTurnView {
        match self {
            PromptTurn::Admitting => PromptTurnView::Admitting,
            PromptTurn::Refused { error } => PromptTurnView::Refused { error: error@ },
            PromptTurn::Settling => PromptTurnView::Settling,
            PromptTurn::Boundary { failure } => PromptTurnView::Boundary {
                failure: opt_text(*failure),
            },
            PromptTurn::Completion { failure } => PromptTurnView::Completion {
                failure: opt_text(*failure),
            },
            PromptTurn::Terminal { failure } => PromptTurnView::Terminal {
                failure: opt_text(*failure),
            },
            PromptTurn::Finished => PromptTurnView::Finished,
        }
    }
}

/// What happened to a prompt turn.
#[derive(Debug, PartialEq, Eq)]
pub enum TurnEvent {
    /// The session took the prompt, or refused it.
    Admitted(Result<(), String>),
    /// The turn settled, cancelled or not, and failed or not.
    Settled { cancelled: bool, failure: Option<String> },
    /// The update was published, or could not be.
    Published(bool),
}

/// The mathematical event behind a [`TurnEvent`].
#[verifier::ext_equal]
pub enum TurnEventView {
    Admitted(Option<Seq<char>>),
    Settled { cancelled: bool, failure: Option<Seq<char>> },
    Published(bool),
}

impl View for TurnEvent {
    type V = TurnEventView;

    open spec fn view(&self) -> TurnEventView {
        match self {
            TurnEvent::Admitted(outcome) => TurnEventView::Admitted(
                crate::branch_navigation::error_of(*outcome),
            ),
            TurnEvent::Settled { cancelled, failure } => TurnEventView::Settled {
                cancelled: *cancelled,
                failure: opt_text(*failure),
            },
            TurnEvent::Published(published) => TurnEventView::Published(*published),
        }
    }
}

/// What is done next for a prompt turn.
#[derive(Debug, PartialEq, Eq)]
pub enum TurnAction {
    WaitForIdle,
    Publish(TurnUpdate),
    /// The turn's updates are closed, the prompt is answered, and the turn gives
    /// its place up or not.
    Finish { response: Json, clear_slot: bool },
    /// The event does not fit: nothing is done.
    Ignore,
}

/// The mathematical action behind a [`TurnAction`].
#[verifier::ext_equal]
pub enum TurnActionView {
    WaitForIdle,
    Publish(TurnUpdate),
    Finish { response: JsonView, clear_slot: bool },
    Ignore,
}

impl View for TurnAction {
    type V = TurnActionView;

    open spec fn view(&self) -> TurnActionView {
        match self {
            TurnAction::WaitForIdle => TurnActionView::WaitForIdle,
            TurnAction::Publish(update) => TurnActionView::Publish(*update),
            TurnAction::Finish { response, clear_slot } => TurnActionView::Finish {
                response: response@,
                clear_slot: *clear_slot,
            },
            TurnAction::Ignore => TurnActionView::Ignore,
        }
    }
}

/// The outcome of a settled turn.
pub open spec fn outcome_of(failure: Option<Seq<char>>) -> PrimeAgentOutcome {
    if failure is Some {
        PrimeAgentOutcome::Error
    } else {
        PrimeAgentOutcome::Result
    }
}

/// The end of a prompt turn that ran.
pub open spec fn turn_end(response: JsonView) -> (PromptTurnView, TurnActionView) {
    (PromptTurnView::Finished, TurnActionView::Finish { response, clear_slot: true })
}

/// The next state and action of a prompt turn.
pub open spec fn prompt_turn_step(
    turn: PromptTurnView,
    id: JsonView,
    event: TurnEventView,
) -> (PromptTurnView, TurnActionView) {
    match (turn, event) {
        (PromptTurnView::Admitting, TurnEventView::Admitted(error)) => match error {
            None => (PromptTurnView::Settling, TurnActionView::WaitForIdle),
            Some(error) => (
                PromptTurnView::Refused { error },
                TurnActionView::Publish(
                    TurnUpdate::ResponseBoundary {
                        terminal_expected: false,
                        outcome: PrimeAgentOutcome::Error,
                    },
                ),
            ),
        },
        (PromptTurnView::Refused { error }, TurnEventView::Published(_)) => (
            PromptTurnView::Finished,
            TurnActionView::Finish { response: internal_json(id, error), clear_slot: false },
        ),
        (PromptTurnView::Settling, TurnEventView::Settled { cancelled, failure }) => if cancelled {
            turn_end(result_json(id, stop_json(AcpStopReason::Cancelled)))
        } else {
            (
                PromptTurnView::Boundary { failure },
                TurnActionView::Publish(
                    TurnUpdate::ResponseBoundary {
                        terminal_expected: true,
                        outcome: outcome_of(failure),
                    },
                ),
            )
        },
        (PromptTurnView::Boundary { failure }, TurnEventView::Published(published)) => if published {
            (
                PromptTurnView::Completion { failure },
                TurnActionView::Publish(TurnUpdate::Completion),
            )
        } else {
            turn_end(internal_json(id, "Failed to publish ACP response boundary"@))
        },
        (PromptTurnView::Completion { failure }, TurnEventView::Published(published)) => if published {
            (
                PromptTurnView::Terminal { failure },
                TurnActionView::Publish(
                    TurnUpdate::TerminalQuiescence { outcome: outcome_of(failure) },
                ),
            )
        } else {
            turn_end(internal_json(id, "Failed to publish ACP completion update"@))
        },
        (PromptTurnView::Terminal { failure }, TurnEventView::Published(published)) => if !published {
            turn_end(internal_json(id, "Failed to publish ACP completion update"@))
        } else {
            match failure {
                Some(failure) => turn_end(
                    internal_json(id, "prime-agent turn failed: "@ + failure),
                ),
                None => turn_end(result_json(id, stop_json(AcpStopReason::EndTurn))),
            }
        },
        _ => (turn, TurnActionView::Ignore),
    }
}

fn outcome_value(failure: &Option<String>) -> (r: PrimeAgentOutcome)
    ensures
        r == outcome_of(opt_text(*failure)),
{
    if failure.is_some() {
        PrimeAgentOutcome::Error
    } else {
        PrimeAgentOutcome::Result
    }
}

impl PromptTurn {
    fn end(&mut self, response: Json) -> (r: TurnAction)
        ensures
            (final(self)@, r@) == turn_end(response@),
    {
        *self = PromptTurn::Finished;
        TurnAction::Finish { response, clear_slot: true }
    }

    /// Take what happened to a prompt turn, and say what is done next.
    pub fn run_prompt_turn(&mut self, id: &Json, event: TurnEvent) -> (r: TurnAction)
        ensures
            (final(self)@, r@) == prompt_turn_step(old(self)@, id@, event@),
    {
        match (&*self, event) {
            (PromptTurn::Admitting, TurnEvent::Admitted(outcome)) => match outcome {
                Ok(_) => {
                    *self = PromptTurn::Settling;
                    TurnAction::WaitForIdle
                },
                Err(error) => {
                    *self = PromptTurn::Refused { error };
                    TurnAction::Publish(
                        TurnUpdate::ResponseBoundary {
                            terminal_expected: false,
                            outcome: PrimeAgentOutcome::Error,
                        },
                    )
                },
            },
            (PromptTurn::Refused { error }, TurnEvent::Published(_)) => {
                let response = internal_error(id, error.as_str());
                *self = PromptTurn::Finished;
                TurnAction::Finish { response, clear_slot: false }
            },
            (PromptTurn::Settling, TurnEvent::Settled { cancelled, failure }) => {
                if cancelled {
                    return self.end(
                        result_frame(id, stop_reason_response(AcpStopReason::Cancelled)),
                    );
                }
                let outcome = outcome_value(&failure);
                *self = PromptTurn::Boundary { failure };
                TurnAction::Publish(
                    TurnUpdate::ResponseBoundary { terminal_expected: true, outcome },
                )
            },
            (PromptTurn::Boundary { failure }, TurnEvent::Published(published)) => {
                if !published {
                    return self.end(
                        internal_error(id, "Failed to publish ACP response boundary"),
                    );
                }
                let failure = crate::text::copy_opt(failure);
                *self = PromptTurn::Completion { failure };
                TurnAction::Publish(TurnUpdate::Completion)
            },
            (PromptTurn::Completion { failure }, TurnEvent::Published(published)) => {
                if !published {
                    return self.end(
                        internal_error(id, "Failed to publish ACP completion update"),
                    );
                }
                let failure = crate::text::copy_opt(failure);
                let outcome = outcome_value(&failure);
                *self = PromptTurn::Terminal { failure };
                TurnAction::Publish(TurnUpdate::TerminalQuiescence { outcome })
            },
            (PromptTurn::Terminal { failure }, TurnEvent::Published(published)) => {
                if !published {
                    return self.end(
                        internal_error(id, "Failed to publish ACP completion update"),
                    );
                }
                let response = match failure {
                    Some(failure) => internal_error(
                        id,
                        concat2("prime-agent turn failed: ", failure.as_str()).as_str(),
                    ),
                    None => result_frame(id, stop_reason_response(AcpStopReason::EndTurn)),
                };
                self.end(response)
            },
            _ => TurnAction::Ignore,
        }
    }
}

/// A refused prompt gets one boundary, which expects no terminal update, and
/// never a completion or a terminal update: its next step ends it.
pub proof fn law_refused_prompts_get_one_boundary(
    id: JsonView,
    error: Seq<char>,
    published: bool,
    event: TurnEventView,
)
    ensures
        prompt_turn_step(PromptTurnView::Admitting, id, TurnEventView::Admitted(Some(error))).1
            == TurnActionView::Publish(
            TurnUpdate::ResponseBoundary {
                terminal_expected: false,
                outcome: PrimeAgentOutcome::Error,
            },
        ),
        prompt_turn_step(
            PromptTurnView::Refused { error },
            id,
            TurnEventView::Published(published),
        ).1 == (TurnActionView::Finish { response: internal_json(id, error), clear_slot: false }),
        prompt_turn_step(PromptTurnView::Finished, id, event).1 == TurnActionView::Ignore,
{
}

/// The frames of a settled turn come in one order: the boundary, then the
/// completion, then the terminal update, then the response; a cancelled turn
/// has none of the first three.
pub proof fn law_settled_turns_publish_in_order(id: JsonView, failure: Option<Seq<char>>)
    ensures
        ({
            let settled = prompt_turn_step(
                PromptTurnView::Settling,
                id,
                TurnEventView::Settled { cancelled: false, failure },
            );
            let bounded = prompt_turn_step(settled.0, id, TurnEventView::Published(true));
            let completed = prompt_turn_step(bounded.0, id, TurnEventView::Published(true));
            let ended = prompt_turn_step(completed.0, id, TurnEventView::Published(true));
            &&& settled.1 == TurnActionView::Publish(
                TurnUpdate::ResponseBoundary {
                    terminal_expected: true,
                    outcome: outcome_of(failure),
                },
            )
            &&& bounded.1 == TurnActionView::Publish(TurnUpdate::Completion)
            &&& completed.1 == TurnActionView::Publish(
                TurnUpdate::TerminalQuiescence { outcome: outcome_of(failure) },
            )
            &&& ended.1 == (TurnActionView::Finish {
                response: match failure {
                    Some(failure) => internal_json(id, "prime-agent turn failed: "@ + failure),
                    None => result_json(id, stop_json(AcpStopReason::EndTurn)),
                },
                clear_slot: true,
            })
        }),
        prompt_turn_step(
            PromptTurnView::Settling,
            id,
            TurnEventView::Settled { cancelled: true, failure },
        ).1 == (TurnActionView::Finish {
            response: result_json(id, stop_json(AcpStopReason::Cancelled)),
            clear_slot: true,
        }),
{
}

} // verus!
