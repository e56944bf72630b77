//! The agent-session engine: which model a session runs on, how a prompt's
//! turns follow one another, what reaches the worker of a running turn, and
//! what the session reports of its resources.
use vstd::prelude::*;

use crate::auto_compaction::{compaction_events, outcome_events, AutoCompactionRun, CompactOutcome};
use crate::compaction::{compaction_result, result_json, CompactionReason};
use crate::engine::{
    events_view, CompactionOutcome, CompactionRun, EngineEvent, EngineModelSelection, EventView,
    OutcomeView, RetryStartReason, SideOutcomeView, SideQuestionOutcome,
};
use crate::json::{items_view, lemma_items_view, opt_view, Json, JsonView};
use crate::paths::{
    digest_text, file_name, file_name_of, first_chars, hex_of, hex_prefix, path_below, strip_base,
    text_digest,
};
use crate::protocol::opt_string;
use crate::session_commands::{parse_prompt_session_command, session_command, SessionSlashCommand};
use crate::rlm_children::{ParentIdentity, SupervisorChildSessions, DEFAULT_RLM_MAX_DEPTH};
use crate::text::{
    as_opt_str, chars_of, concat2, concat3, concat5, copy_opt, decimal, decimal_text, ends_with,
    has_prefix, has_suffix, is_empty_text, is_text, opt_str, opt_text, own_opt, parse_number,
    parsed_number, same_text, starts_with,
};

verus! {

/// Where a worker reaches its supervisor, and as which session.
#[derive(Debug, PartialEq, Eq)]
pub struct SupervisorLinkConfig {
    pub socket_path: String,
    pub active_session_id: String,
    pub worker_token: String,
}

// ---------------------------------------------------------------------------
// Model selection
// ---------------------------------------------------------------------------

/// The mathematical selection behind an [`EngineModelSelection`].
#[verifier::ext_equal]
pub struct SelectionView {
    pub provider: Option<Seq<char>>,
    pub model: Option<Seq<char>>,
    pub api_key: Option<Seq<char>>,
    pub thinking: Option<Seq<char>>,
}

impl View for EngineModelSelection {
    type V = SelectionView;

    open spec fn view(&self) -> SelectionView {
        SelectionView {
            provider: opt_text(self.provider),
            model: opt_text(self.model),
            api_key: opt_text(self.api_key),
            thinking: opt_text(self.thinking),
        }
    }
}

/// The selection an engine starts with: the configured one where it names a
/// provider or a model, else the one of the environment, without a key.
pub open spec fn first_selection(
    config: SelectionView,
    env_provider: Option<Seq<char>>,
    env_model: Option<Seq<char>>,
) -> SelectionView {
    if config.provider is Some || config.model is Some {
        config
    } else {
        SelectionView {
            provider: env_provider,
            model: env_model,
            api_key: None,
            thinking: config.thinking,
        }
    }
}

/// The selection an engine starts with.
pub fn initial_selection(
    config: EngineModelSelection,
    env_provider: Option<String>,
    env_model: Option<String>,
) -> (r: EngineModelSelection)
    ensures
        r@ == first_selection(config@, opt_text(env_provider), opt_text(env_model)),
{
    if config.provider.is_some() || config.model.is_some() {
        config
    } else {
        EngineModelSelection {
            provider: env_provider,
            model: env_model,
            api_key: None,
            thinking: config.thinking,
        }
    }
}

/// The later of two optional values.
pub open spec fn or_keep(new: Option<Seq<char>>, current: Option<Seq<char>>) -> Option<Seq<char>> {
    if new is Some {
        new
    } else {
        current
    }
}

/// A selection with another merged in: what the other names replaces, and what
/// it leaves out stays.
pub open spec fn merged(current: SelectionView, new: SelectionView) -> SelectionView {
    SelectionView {
        provider: or_keep(new.provider, current.provider),
        model: or_keep(new.model, current.model),
        api_key: or_keep(new.api_key, current.api_key),
        thinking: or_keep(new.thinking, current.thinking),
    }
}

/// Merge a selection into the current one.
pub fn merge_selection(current: &mut EngineModelSelection, selection: EngineModelSelection)
    ensures
        final(current)@ == merged(old(current)@, selection@),
{
    if selection.provider.is_some() {
        current.provider = selection.provider;
    }
    if selection.model.is_some() {
        current.model = selection.model;
    }
    if selection.api_key.is_some() {
        current.api_key = selection.api_key;
    }
    if selection.thinking.is_some() {
        current.thinking = selection.thinking;
    }
}

/// Merging nothing changes nothing, and merging the same selection twice is
/// merging it once.
pub proof fn law_selection_merges(current: SelectionView, new: SelectionView)
    ensures
        merged(
            current,
            SelectionView { provider: None, model: None, api_key: None, thinking: None },
        ) == current,
        merged(merged(current, new), new) == merged(current, new),
{
}

/// The thinking level that is asked for: the selection's, else the setting's,
/// else the medium one.
pub open spec fn requested_level(
    selection: Option<Seq<char>>,
    setting: Option<Seq<char>>,
) -> Seq<char> {
    match selection {
        Some(level) => level,
        None => match setting {
            Some(level) => level,
            None => "medium"@,
        },
    }
}

/// The thinking level that is asked for.
pub fn requested_thinking(selection: Option<&str>, setting: Option<&str>) -> (r: String)
    ensures
        r@ == requested_level(opt_str(selection), opt_str(setting)),
{
    match selection {
        Some(level) => level.to_owned(),
        None => match setting {
            Some(level) => level.to_owned(),
            None => "medium".to_owned(),
        },
    }
}

/// The thinking level in force: what the model supports of the requested one,
/// and none where no model could be resolved.
pub open spec fn level_in_force(clamped: Option<Seq<char>>) -> Seq<char> {
    match clamped {
        Some(level) => level,
        None => "off"@,
    }
}

/// The key of a request: the selection's own, else the registry's.
pub fn resolve_request_api_key(selection: &EngineModelSelection, registry: Option<&str>) -> (r: Option<
    String,
>)
    ensures
        opt_text(r) == or_keep(selection@.api_key, opt_str(registry)),
{
    match &selection.api_key {
        Some(key) => Some(key.clone()),
        None => own_opt(registry),
    }
}

/// A model, by its provider and id.
#[derive(Debug, PartialEq, Eq)]
pub struct ModelRef {
    pub provider: String,
    pub id: String,
}

/// The mathematical model behind a [`ModelRef`].
#[verifier::ext_equal]
pub struct ModelView {
    pub provider: Seq<char>,
    pub id: Seq<char>,
}

impl View for ModelRef {
    type V = ModelView;

    open spec fn view(&self) -> ModelView {
        ModelView { provider: self.provider@, id: self.id@ }
    }
}

impl ModelRef {
    fn copy(&self) -> (r: ModelRef)
        ensures
            r == *self,
    {
        ModelRef { provider: self.provider.clone(), id: self.id.clone() }
    }
}

/// An optional model.
pub open spec fn opt_model(model: Option<ModelRef>) -> Option<ModelView> {
    match model {
        Some(model) => Some(model@),
        None => None,
    }
}

/// What the registry found for a session's selection.
#[derive(Debug, PartialEq, Eq)]
pub enum RegistryLookup {
    /// No model is named: the start-up choice, and the first registered model.
    Unnamed { startup: Option<ModelRef>, first: Option<ModelRef> },
    /// A model is named: what its name resolved to.
    Named { model: Option<ModelRef>, error: Option<String> },
}

/// Whether a result is the model of a lookup: a named one as it resolved, with the
/// resolution's error first; else the start-up choice, else the first model there
/// is.
pub open spec fn is_looked_up(result: Result<ModelRef, String>, lookup: RegistryLookup) -> bool {
    match lookup {
        RegistryLookup::Unnamed { startup, first } => match result {
            Ok(model) => opt_model(startup) == Some(model@) || (startup is None && opt_model(first)
                == Some(model@)),
            Err(message) => startup is None && first is None && message@
                == "No models available. Check your installation or add models to models.json."@,
        },
        RegistryLookup::Named { model, error } => match result {
            Ok(got) => error is None && opt_model(model) == Some(got@),
            Err(message) => match error {
                Some(error) => message@ == error@,
                None => model is None && message@ == "No matching model found."@,
            },
        },
    }
}

/// The model of a lookup.
pub fn resolve_registry_model(lookup: RegistryLookup) -> (r: Result<ModelRef, String>)
    ensures
        is_looked_up(r, lookup),
{
    match lookup {
        RegistryLookup::Unnamed { startup, first } => match startup {
            Some(model) => Ok(model),
            None => match first {
                Some(model) => Ok(model),
                None => Err(
                    "No models available. Check your installation or add models to models.json.".to_owned(),
                ),
            },
        },
        RegistryLookup::Named { model, error } => match error {
            Some(error) => Err(error),
            None => match model {
                Some(model) => Ok(model),
                None => Err("No matching model found.".to_owned()),
            },
        },
    }
}

/// The selector by which children inherit a model.
pub fn model_selector(model: &ModelRef) -> (r: String)
    ensures
        r@ == model.provider@ + "/"@ + model.id@,
{
    concat3(model.provider.as_str(), "/", model.id.as_str())
}

/// Whether a session's telemetry is installed: unless it was turned off.
pub fn telemetry_enabled(telemetry_disabled: Option<bool>) -> (r: bool)
    ensures
        r == (telemetry_disabled != Some(true)),
{
    match telemetry_disabled {
        Some(disabled) => !disabled,
        None => true,
    }
}

// ---------------------------------------------------------------------------
// Recursion depth
// ---------------------------------------------------------------------------

/// The depth bound that an entry records, where it records one.
pub open spec fn recorded_depth(entry: JsonView) -> Option<u64> {
    if entry.get_str("type"@) == Some("custom"@) && entry.get_str("customType"@) == Some(
        "rlm_max_depth_state"@,
    ) {
        match entry.get("data"@) {
            Some(data) => data.get_u64("maxDepth"@),
            None => None,
        }
    } else {
        None
    }
}

/// The last depth bound that a run of entries records.
pub open spec fn last_recorded_depth(entries: Seq<JsonView>) -> Option<u64>
    decreases entries.len(),
{
    if entries.len() == 0 {
        None
    } else {
        match recorded_depth(entries.last()) {
            Some(depth) => Some(depth),
            None => last_recorded_depth(entries.drop_last()),
        }
    }
}

/// The last depth bound that a session file's entries record.
pub fn persisted_rlm_max_depth(entries: &Vec<Json>) -> (r: Option<u64>)
    ensures
        r == last_recorded_depth(items_view(entries@)),
{
    let ghost all = items_view(entries@);
    proof {
        lemma_items_view(entries@);
    }
    let mut n: usize = entries.len();
    assert(all.take(n as int) =~= all);
    while n > 0
        invariant
            all == items_view(entries@),
            n <= entries@.len(),
            all.len() == entries@.len(),
            forall|j: int| 0 <= j < entries@.len() ==> #[trigger] all[j] == entries@[j]@,
            last_recorded_depth(all) == last_recorded_depth(all.take(n as int)),
        decreases n,
    {
        assert(all.take(n as int).last() == all[n - 1]);
        assert(all.take(n as int).drop_last() =~= all.take(n - 1));
        let entry = &entries[n - 1];
        if is_text(entry.get_str("type"), "custom") && is_text(
            entry.get_str("customType"),
            "rlm_max_depth_state",
        ) {
            match entry.get("data") {
                Some(data) => match data.get_u64("maxDepth") {
                    Some(depth) => {
                        return Some(depth);
                    },
                    None => {},
                },
                None => {},
            }
        }
        n = n - 1;
    }
    None
}

/// Where a depth bound comes from.
#[derive(Debug, Clone, Copy, PartialEq, Eq, Structural)]
pub enum DepthSource {
    Chat,
    Inherited,
    Global,
    Env,
    Default,
}

impl DepthSource {
    pub open spec fn text(self) -> Seq<char> {
        match self {
            DepthSource::Chat => "chat"@,
            DepthSource::Inherited => "inherited"@,
            DepthSource::Global => "global"@,
            DepthSource::Env => "env"@,
            DepthSource::Default => "default"@,
        }
    }

    /// The source as it is reported.
    pub fn as_str(self) -> (r: &'static str)
        ensures
            r@ == self.text(),
    {
        match self {
            DepthSource::Chat => "chat",
            DepthSource::Inherited => "inherited",
            DepthSource::Global => "global",
            DepthSource::Env => "env",
            DepthSource::Default => "default",
        }
    }
}

/// The depth bound in force and where it comes from: the session's own, else
/// the inherited one, else the global setting, else the environment's (at least
/// one), else the default.
pub open spec fn depth_bound(
    chat: Option<u64>,
    inherited: Option<u32>,
    global: Option<u64>,
    env: Option<u64>,
) -> (u64, DepthSource) {
    match chat {
        Some(depth) => (depth, DepthSource::Chat),
        None => match inherited {
            Some(depth) => (depth as u64, DepthSource::Inherited),
            None => match global {
                Some(depth) => (depth, DepthSource::Global),
                None => match env {
                    Some(depth) if depth >= 1 => (depth, DepthSource::Env),
                    _ => (DEFAULT_RLM_MAX_DEPTH as u64, DepthSource::Default),
                },
            },
        },
    }
}

/// The depth bound that the environment gives, where it gives a number.
pub open spec fn env_depth(value: Option<Seq<char>>) -> Option<u64> {
    match value {
        Some(value) => parsed_number(value),
        None => None,
    }
}

/// The depth bound in force and where it comes from.
pub fn resolve_rlm_max_depth(
    chat: Option<u64>,
    inherited: Option<u32>,
    global: Option<u64>,
    env: Option<&str>,
) -> (r: (u64, DepthSource))
    ensures
        r == depth_bound(chat, inherited, global, env_depth(opt_str(env))),
{
    let env = match env {
        Some(value) => parse_number(value),
        None => None,
    };
    match chat {
        Some(depth) => (depth, DepthSource::Chat),
        None => match inherited {
            Some(depth) => (depth as u64, DepthSource::Inherited),
            None => match global {
                Some(depth) => (depth, DepthSource::Global),
                None => match env {
                    Some(depth) if depth >= 1 => (depth, DepthSource::Env),
                    _ => (DEFAULT_RLM_MAX_DEPTH as u64, DepthSource::Default),
                },
            },
        },
    }
}

/// A depth as the children's registry holds it.
pub open spec fn registry_depth(depth: u64) -> u32 {
    if depth < u32::MAX {
        depth as u32
    } else {
        u32::MAX
    }
}

/// A depth as the children's registry holds it.
pub fn child_depth_bound(depth: u64) -> (r: u32)
    ensures
        r == registry_depth(depth),
{
    if depth < u32::MAX as u64 {
        depth as u32
    } else {
        u32::MAX
    }
}

/// What a session is among its parents and children.
#[derive(Debug, PartialEq, Eq)]
pub struct RlmSessionIdentity {
    pub rlm_depth: u32,
    pub rlm_max_depth: Option<u32>,
    pub cwd: Option<String>,
    pub session_id: Option<String>,
    pub session_file: Option<String>,
    pub thinking: Option<String>,
}

/// Whether an identity, or its refusal, is the one that children are spawned from.
pub open spec fn is_child_identity(
    result: Result<(ParentIdentity, DepthSource), String>,
    identity: RlmSessionIdentity,
    thinking_known: bool,
    chat: Option<u64>,
    global: Option<u64>,
    env: Option<Seq<char>>,
) -> bool {
    match result {
        Err(message) => identity.thinking is Some && !thinking_known && message@
            == "unknown thinking level \""@ + identity.thinking->0@ + "\""@,
        Ok((parent, source)) => {
            let bound = depth_bound(
                chat,
                identity.rlm_max_depth,
                global,
                env_depth(env),
            );
            &&& identity.thinking is None || thinking_known
            &&& source == bound.1
            &&& parent.rlm_depth == identity.rlm_depth
            &&& parent.rlm_max_depth == registry_depth(bound.0)
            &&& parent.model is None
            &&& parent.cwd == identity.cwd
            &&& parent.session_id == identity.session_id
            &&& parent.session_file == identity.session_file
            &&& parent.thinking == identity.thinking
            &&& parent.child_script is None
        },
    }
}

/// The identity that children are spawned from, and where its depth bound comes
/// from. A thinking level that is not known is refused.
pub fn child_identity(
    identity: &RlmSessionIdentity,
    thinking_known: bool,
    chat: Option<u64>,
    global: Option<u64>,
    env: Option<&str>,
) -> (r: Result<(ParentIdentity, DepthSource), String>)
    ensures
        is_child_identity(r, *identity, thinking_known, chat, global, opt_str(env)),
{
    match &identity.thinking {
        Some(level) => {
            if !thinking_known {
                return Err(concat3("unknown thinking level \"", level.as_str(), "\""));
            }
        },
        None => {},
    }
    let (depth, source) = resolve_rlm_max_depth(chat, identity.rlm_max_depth, global, env);
    Ok(
        (
            ParentIdentity {
                rlm_depth: identity.rlm_depth,
                rlm_max_depth: child_depth_bound(depth),
                model: None,
                cwd: copy_opt(&identity.cwd),
                session_id: copy_opt(&identity.session_id),
                session_file: copy_opt(&identity.session_file),
                thinking: copy_opt(&identity.thinking),
                child_script: None,
            },
            source,
        ),
    )
}

/// What is reported of the depth bound.
pub open spec fn depth_status(max_depth: u32, source: DepthSource) -> JsonView {
    JsonView::object().field("maxDepth"@, JsonView::uint(max_depth as u64)).field(
        "source"@,
        JsonView::Str(source.text()),
    )
}

/// What is reported of the depth bound.
pub fn max_depth_status(max_depth: u32, source: DepthSource) -> (r: Json)
    ensures
        r@ == depth_status(max_depth, source),
{
    Json::object().field("maxDepth", Json::uint(max_depth as u64)).field(
        "source",
        Json::string(source.as_str()),
    )
}

/// The answer to a new depth bound: it is the session's own from now on, and
/// whether the global setting was saved too, where that was asked for.
pub open spec fn depth_answer(
    max_depth: u64,
    global: bool,
    global_error: Option<Seq<char>>,
) -> JsonView {
    let saved = global && global_error is None;
    let answer = JsonView::object().field("maxDepth"@, JsonView::uint(max_depth)).field(
        "source"@,
        JsonView::Str("chat"@),
    ).field("globalSaved"@, JsonView::Bool(saved));
    if global {
        answer.field_opt("globalError"@, opt_string(global_error))
    } else {
        answer
    }
}

/// The answer to a new depth bound.
pub fn max_depth_answer(max_depth: u64, global: bool, global_error: Option<&str>) -> (r: Json)
    ensures
        r@ == depth_answer(max_depth, global, opt_str(global_error)),
{
    let saved = global && global_error.is_none();
    let answer = Json::object().field("maxDepth", Json::uint(max_depth)).field(
        "source",
        Json::string("chat"),
    ).field("globalSaved", Json::Bool(saved));
    if global {
        answer.field_opt_str("globalError", global_error)
    } else {
        answer
    }
}

/// The data of the entry that a new depth bound leaves in the session file.
pub open spec fn depth_entry(max_depth: u64) -> JsonView {
    JsonView::object().field("maxDepth"@, JsonView::uint(max_depth))
}

/// The data of the entry that a new depth bound leaves in the session file.
pub fn max_depth_entry(max_depth: u64) -> (r: Json)
    ensures
        r@ == depth_entry(max_depth),
{
    Json::object().field("maxDepth", Json::uint(max_depth))
}

/// A resumed session takes up the bound that was last set in it: the entry that
/// a new bound leaves is read back whatever came before it.
pub proof fn law_depth_bound_survives(entries: Seq<JsonView>, entry: JsonView, max_depth: u64)
    requires
        entry.get_str("type"@) == Some("custom"@),
        entry.get_str("customType"@) == Some("rlm_max_depth_state"@),
        entry.get("data"@) == Some(depth_entry(max_depth)),
    ensures
        last_recorded_depth(entries.push(entry)) == Some(max_depth),
        depth_bound(last_recorded_depth(entries.push(entry)), None, None, None) == (
            max_depth,
            DepthSource::Chat,
        ),
{
    let data = JsonView::object().field("maxDepth"@, JsonView::uint(max_depth));
    let members = data->Object_0;
    assert(members =~= seq![("maxDepth"@, JsonView::uint(max_depth))]);
    reveal_with_fuel(crate::json::lookup, 2);
    assert(data.get_u64("maxDepth"@) == Some(max_depth));
}

// ---------------------------------------------------------------------------
// Artifacts and resources
// ---------------------------------------------------------------------------

/// A path with forward slashes.
pub open spec fn forward_slashes(path: Seq<char>) -> Seq<char> {
    Seq::new(
        path.len(),
        |i: int|
            if path[i] == '\\' {
                '/'
            } else {
                path[i]
            },
    )
}

fn with_forward_slashes(path: &str) -> (r: String)
    ensures
        r@ == forward_slashes(path@),
{
    let chars = chars_of(path);
    let mut out = String::new();
    let mut i: usize = 0;
    while i < chars.len()
        invariant
            chars@ == path@,
            i <= chars@.len(),
            out@ == forward_slashes(path@).take(i as int),
        decreases chars@.len() - i,
    {
        if chars[i] == '\\' {
            out.push('/');
        } else {
            out.push(chars[i]);
        }
        i = i + 1;
        assert(out@ =~= forward_slashes(path@).take(i as int));
    }
    assert(out@ =~= forward_slashes(path@));
    out
}

/// Whether a path stands for something that is no file.
pub open spec fn is_synthetic(path: Seq<char>) -> bool {
    starts_with(path, "<"@) && ends_with(path, ">"@)
}

/// The path that an artifact is shown by: a synthetic one as it is, one below
/// the working directory as it is there, any other by its last name.
pub open spec fn logical_path(
    path: Seq<char>,
    relative: Option<Seq<char>>,
    name: Option<Seq<char>>,
) -> Seq<char> {
    let below = match relative {
        Some(relative) => forward_slashes(relative),
        None => Seq::empty(),
    };
    if is_synthetic(path) {
        path
    } else if below.len() > 0 && !starts_with(below, ".."@) && !starts_with(below, "/"@) {
        below
    } else {
        match name {
            Some(name) => name,
            None => "artifact"@,
        }
    }
}

/// The path that an artifact is shown by.
pub fn logical_artifact_path(cwd: &str, file_path: &str) -> (r: String)
    ensures
        r@ == logical_path(
            file_path@,
            path_below(file_path@, cwd@),
            file_name_of(file_path@),
        ),
{
    let relative = strip_base(file_path, cwd);
    let name = file_name(file_path);
    shown_path(file_path, as_opt_str(&relative), as_opt_str(&name))
}

/// The path that an artifact is shown by, given its path below the working
/// directory, where it is there, and its last name, where it has one.
pub fn shown_path(file_path: &str, relative: Option<&str>, name: Option<&str>) -> (r: String)
    ensures
        r@ == logical_path(file_path@, opt_str(relative), opt_str(name)),
{
    if has_prefix(file_path, "<") && has_suffix(file_path, ">") {
        return file_path.to_owned();
    }
    let below = match relative {
        Some(relative) => with_forward_slashes(relative),
        None => String::new(),
    };
    if !is_empty_text(below.as_str()) && !has_prefix(below.as_str(), "..") && !has_prefix(
        below.as_str(),
        "/",
    ) {
        return below;
    }
    match name {
        Some(name) => name.to_owned(),
        None => "artifact".to_owned(),
    }
}

/// What an artifact's id is the digest of.
pub open spec fn artifact_key(
    session_id: Seq<char>,
    artifact_type: Seq<char>,
    path: Seq<char>,
) -> Seq<char> {
    session_id + "\0"@ + artifact_type + "\0"@ + path
}

/// The reference to an artifact: its id, its session, its type, and its paths.
/// The digest is that of its key.
pub open spec fn artifact_json(
    session_id: Seq<char>,
    artifact_type: Seq<char>,
    path: Seq<char>,
    digest: Seq<u8>,
    relative: Option<Seq<char>>,
    name: Option<Seq<char>>,
) -> Option<JsonView> {
    let logical = logical_path(path, relative, name);
    if path.len() == 0 {
        None
    } else {
        Some(
            JsonView::object().field(
                "id"@,
                JsonView::Str("artifact_"@ + first_chars(hex_of(digest), 16)),
            ).field("sessionId"@, JsonView::Str(session_id)).field(
                "type"@,
                JsonView::Str(artifact_type),
            ).field("logicalPath"@, JsonView::Str(logical)).field_opt(
                "relativePath"@,
                if relative is Some && logical.len() > 0 && logical[0] != '.' && logical[0] != '/' {
                    Some(JsonView::Str(forward_slashes(relative->0)))
                } else {
                    None
                },
            ),
        )
    }
}

/// The reference to a file as an artifact of a session.
pub open spec fn artifact_of(
    session_id: Seq<char>,
    cwd: Seq<char>,
    artifact_type: Seq<char>,
    path: Seq<char>,
) -> Option<JsonView> {
    artifact_json(
        session_id,
        artifact_type,
        path,
        text_digest(artifact_key(session_id, artifact_type, path)),
        path_below(path, cwd),
        file_name_of(path),
    )
}

/// The reference to an artifact; none where it has no path.
pub fn artifact_reference(
    session_id: &str,
    cwd: &str,
    artifact_type: &str,
    file_path: &str,
) -> (r: Option<Json>)
    ensures
        opt_view(r) == artifact_of(session_id@, cwd@, artifact_type@, file_path@),
{
    let key = concat5(session_id, "\0", artifact_type, "\0", file_path);
    let digest = digest_text(key.as_str());
    let relative = strip_base(file_path, cwd);
    let name = file_name(file_path);
    placed_artifact(
        session_id,
        artifact_type,
        file_path,
        &digest,
        as_opt_str(&relative),
        as_opt_str(&name),
    )
}

/// The reference to an artifact, given the digest of its key, its path below the
/// working directory, where it is there, and its last name, where it has one.
pub fn placed_artifact(
    session_id: &str,
    artifact_type: &str,
    file_path: &str,
    digest: &Vec<u8>,
    relative: Option<&str>,
    name: Option<&str>,
) -> (r: Option<Json>)
    ensures
        opt_view(r) == artifact_json(
            session_id@,
            artifact_type@,
            file_path@,
            digest@,
            opt_str(relative),
            opt_str(name),
        ),
{
    if is_empty_text(file_path) {
        return None;
    }
    let id = concat2("artifact_", hex_prefix(digest, 16).as_str());
    let logical = shown_path(file_path, relative, name);
    let plain = !is_empty_text(logical.as_str()) && {
        let first = logical.as_str().get_char(0);
        first != '.' && first != '/'
    };
    let below = match relative {
        Some(relative) => if plain {
            Some(Json::string(with_forward_slashes(relative).as_str()))
        } else {
            None
        },
        None => None,
    };
    Some(
        Json::object().field("id", Json::string(id.as_str())).field(
            "sessionId",
            Json::string(session_id),
        ).field("type", Json::string(artifact_type)).field(
            "logicalPath",
            Json::string(logical.as_str()),
        ).field_opt("relativePath", below),
    )
}

/// An extension's command.
#[derive(Debug, PartialEq, Eq)]
pub struct ExtensionCommand {
    pub invocation_name: String,
    pub name: String,
    pub description: Option<String>,
}

/// A prompt template of a session.
#[derive(Debug, PartialEq, Eq)]
pub struct PromptTemplate {
    pub name: String,
    pub description: String,
    pub argument_hint: Option<String>,
    pub source_info: Json,
    pub file_path: String,
}

/// A skill of a session.
#[derive(Debug, PartialEq, Eq)]
pub struct Skill {
    pub name: String,
    pub description: String,
    pub source_info: Json,
    pub file_path: String,
}

/// A description, where it has text.
pub open spec fn described(description: Seq<char>) -> Option<JsonView> {
    if description.len() == 0 {
        None
    } else {
        Some(JsonView::Str(description))
    }
}

fn description_value(description: &str) -> (r: Option<Json>)
    ensures
        opt_view(r) == described(description@),
{
    if is_empty_text(description) {
        None
    } else {
        Some(Json::string(description))
    }
}

/// An extension's command as clients see it.
pub open spec fn extension_json(command: ExtensionCommand) -> JsonView {
    JsonView::object().field("name"@, JsonView::Str(command.invocation_name@)).field(
        "registeredName"@,
        JsonView::Str(command.name@),
    ).field("source"@, JsonView::Str("extension"@)).field_opt(
        "description"@,
        opt_string(opt_text(command.description)),
    )
}

/// A prompt template's command as clients see it.
pub open spec fn template_json(template: PromptTemplate) -> JsonView {
    JsonView::object().field("name"@, JsonView::Str(template.name@)).field(
        "source"@,
        JsonView::Str("prompt"@),
    ).field("sourceInfo"@, template.source_info@).field_opt(
        "argumentHint"@,
        opt_string(opt_text(template.argument_hint)),
    ).field_opt("description"@, described(template.description@))
}

/// A skill's command as clients see it.
pub open spec fn skill_json(skill: Skill) -> JsonView {
    JsonView::object().field("name"@, JsonView::Str("skill:"@ + skill.name@)).field(
        "source"@,
        JsonView::Str("skill"@),
    ).field("sourceInfo"@, skill.source_info@).field_opt(
        "description"@,
        described(skill.description@),
    )
}

/// The commands of a session as clients see them: those of extensions, then of
/// prompt templates, then of skills.
pub open spec fn commands_json(
    extensions: Seq<ExtensionCommand>,
    templates: Seq<PromptTemplate>,
    skills: Seq<Skill>,
) -> Seq<JsonView> {
    Seq::new(extensions.len(), |i: int| extension_json(extensions[i])) + Seq::new(
        templates.len(),
        |i: int| template_json(templates[i]),
    ) + Seq::new(skills.len(), |i: int| skill_json(skills[i]))
}

/// Append a value to a run of them.
fn push_value(items: &mut Vec<Json>, value: Json)
    ensures
        items_view(final(items)@) == items_view(old(items)@).push(value@),
{
    items.push(value);
    assert(items@.drop_last() =~= old(items)@);
}

fn no_values() -> (r: Vec<Json>)
    ensures
        items_view(r@) == Seq::<JsonView>::empty(),
{
    let r: Vec<Json> = Vec::new();
    assert(items_view(r@) =~= Seq::empty());
    r
}

/// The commands of a session as clients see them.
pub fn connection_commands(
    extensions: &Vec<ExtensionCommand>,
    templates: &Vec<PromptTemplate>,
    skills: &Vec<Skill>,
) -> (r: Vec<Json>)
    ensures
        items_view(r@) == commands_json(extensions@, templates@, skills@),
{
    let mut out = no_values();
    let ghost first = Seq::new(extensions@.len(), |i: int| extension_json(extensions@[i]));
    let ghost second = Seq::new(templates@.len(), |i: int| template_json(templates@[i]));
    let ghost third = Seq::new(skills@.len(), |i: int| skill_json(skills@[i]));
    let mut i: usize = 0;
    assert(items_view(out@) =~= first.take(0));
    while i < extensions.len()
        invariant
            i <= extensions@.len(),
            first == Seq::new(extensions@.len(), |i: int| extension_json(extensions@[i])),
            items_view(out@) == first.take(i as int),
        decreases extensions@.len() - i,
    {
        let command = &extensions[i];
        push_value(
            &mut out,
            Json::object().field("name", Json::string(command.invocation_name.as_str())).field(
                "registeredName",
                Json::string(command.name.as_str()),
            ).field("source", Json::string("extension")).field_opt_str(
                "description",
                as_opt_str(&command.description),
            ),
        );
        i = i + 1;
        assert(items_view(out@) =~= first.take(i as int));
    }
    assert(first.take(i as int) =~= first);
    i = 0;
    assert(items_view(out@) =~= first + second.take(0));
    while i < templates.len()
        invariant
            i <= templates@.len(),
            second == Seq::new(templates@.len(), |i: int| template_json(templates@[i])),
            items_view(out@) == first + second.take(i as int),
        decreases templates@.len() - i,
    {
        let template = &templates[i];
        push_value(
            &mut out,
            Json::object().field("name", Json::string(template.name.as_str())).field(
                "source",
                Json::string("prompt"),
            ).field("sourceInfo", template.source_info.duplicate()).field_opt_str(
                "argumentHint",
                as_opt_str(&template.argument_hint),
            ).field_opt("description", description_value(template.description.as_str())),
        );
        i = i + 1;
        assert(items_view(out@) =~= first + second.take(i as int));
    }
    assert(second.take(i as int) =~= second);
    i = 0;
    assert(items_view(out@) =~= first + second + third.take(0));
    while i < skills.len()
        invariant
            i <= skills@.len(),
            third == Seq::new(skills@.len(), |i: int| skill_json(skills@[i])),
            items_view(out@) == first + second + third.take(i as int),
        decreases skills@.len() - i,
    {
        let skill = &skills[i];
        push_value(
            &mut out,
            Json::object().field(
                "name",
                Json::string(concat2("skill:", skill.name.as_str()).as_str()),
            ).field("source", Json::string("skill")).field(
                "sourceInfo",
                skill.source_info.duplicate(),
            ).field_opt("description", description_value(skill.description.as_str())),
        );
        i = i + 1;
        assert(items_view(out@) =~= first + second + third.take(i as int));
    }
    assert(third.take(i as int) =~= third);
    out
}

/// A skill as the resource view shows it.
pub open spec fn skill_resource(session_id: Seq<char>, cwd: Seq<char>, skill: Skill) -> JsonView {
    JsonView::object().field("name"@, JsonView::Str(skill.name@)).field(
        "filePath"@,
        JsonView::Str(skill.file_path@),
    ).field("sourceInfo"@, skill.source_info@).field_opt(
        "description"@,
        described(skill.description@),
    ).field_opt("artifact"@, artifact_of(session_id, cwd, "skill"@, skill.file_path@))
}

/// A prompt template as the resource view shows it.
pub open spec fn template_resource(
    session_id: Seq<char>,
    cwd: Seq<char>,
    template: PromptTemplate,
) -> JsonView {
    JsonView::object().field("name"@, JsonView::Str(template.name@)).field(
        "filePath"@,
        JsonView::Str(template.file_path@),
    ).field("sourceInfo"@, template.source_info@).field_opt(
        "description"@,
        described(template.description@),
    ).field_opt("argumentHint"@, opt_string(opt_text(template.argument_hint))).field_opt(
        "artifact"@,
        artifact_of(session_id, cwd, "prompt"@, template.file_path@),
    )
}

/// A context file as the resource view shows it.
pub open spec fn context_resource(
    session_id: Seq<char>,
    cwd: Seq<char>,
    path: Seq<char>,
) -> JsonView {
    JsonView::object().field("path"@, JsonView::Str(path)).field_opt(
        "artifact"@,
        artifact_of(session_id, cwd, "context_file"@, path),
    )
}

/// An extension's error as the resource view shows it.
pub open spec fn diagnostic_json(error: Seq<char>) -> JsonView {
    JsonView::object().field("type"@, JsonView::Str("error"@)).field(
        "message"@,
        JsonView::Str(error),
    )
}

/// The resources of a session as clients see them.
pub open spec fn resources_json(
    session_id: Seq<char>,
    cwd: Seq<char>,
    context_files: Seq<String>,
    skills: Seq<Skill>,
    templates: Seq<PromptTemplate>,
    skill_diagnostics: JsonView,
    extension_errors: Seq<String>,
) -> JsonView {
    JsonView::object().field(
        "contextFiles"@,
        JsonView::Array(
            Seq::new(
                context_files.len(),
                |i: int| context_resource(session_id, cwd, context_files[i]@),
            ),
        ),
    ).field(
        "skills"@,
        JsonView::Array(
            Seq::new(skills.len(), |i: int| skill_resource(session_id, cwd, skills[i])),
        ),
    ).field(
        "prompts"@,
        JsonView::Array(
            Seq::new(templates.len(), |i: int| template_resource(session_id, cwd, templates[i])),
        ),
    ).field("extensions"@, JsonView::Array(Seq::empty())).field(
        "themes"@,
        JsonView::Array(Seq::empty()),
    ).field(
        "diagnostics"@,
        JsonView::object().field("skills"@, skill_diagnostics).field(
            "prompts"@,
            JsonView::Array(Seq::empty()),
        ).field(
            "extensions"@,
            JsonView::Array(
                Seq::new(extension_errors.len(), |i: int| diagnostic_json(extension_errors[i]@)),
            ),
        ).field("themes"@, JsonView::Array(Seq::empty())),
    )
}

fn skill_resources(session_id: &str, cwd: &str, skills: &Vec<Skill>) -> (r: Vec<Json>)
    ensures
        items_view(r@) == Seq::new(
            skills@.len(),
            |i: int| skill_resource(session_id@, cwd@, skills@[i]),
        ),
{
    let ghost all = Seq::new(skills@.len(), |i: int| skill_resource(session_id@, cwd@, skills@[i]));
    let mut out = no_values();
    let mut i: usize = 0;
    assert(items_view(out@) =~= all.take(0));
    while i < skills.len()
        invariant
            i <= skills@.len(),
            all == Seq::new(skills@.len(), |i: int| skill_resource(session_id@, cwd@, skills@[i])),
            items_view(out@) == all.take(i as int),
        decreases skills@.len() - i,
    {
        let skill = &skills[i];
        push_value(
            &mut out,
            Json::object().field("name", Json::string(skill.name.as_str())).field(
                "filePath",
                Json::string(skill.file_path.as_str()),
            ).field("sourceInfo", skill.source_info.duplicate()).field_opt(
                "description",
                description_value(skill.description.as_str()),
            ).field_opt(
                "artifact",
                artifact_reference(session_id, cwd, "skill", skill.file_path.as_str()),
            ),
        );
        i = i + 1;
        assert(items_view(out@) =~= all.take(i as int));
    }
    assert(all.take(i as int) =~= all);
    out
}

fn template_resources(session_id: &str, cwd: &str, templates: &Vec<PromptTemplate>) -> (r: Vec<
    Json,
>)
    ensures
        items_view(r@) == Seq::new(
            templates@.len(),
            |i: int| template_resource(session_id@, cwd@, templates@[i]),
        ),
{
    let ghost all = Seq::new(
        templates@.len(),
        |i: int| template_resource(session_id@, cwd@, templates@[i]),
    );
    let mut out = no_values();
    let mut i: usize = 0;
    assert(items_view(out@) =~= all.take(0));
    while i < templates.len()
        invariant
            i <= templates@.len(),
            all == Seq::new(
                templates@.len(),
                |i: int| template_resource(session_id@, cwd@, templates@[i]),
            ),
            items_view(out@) == all.take(i as int),
        decreases templates@.len() - i,
    {
        let template = &templates[i];
        push_value(
            &mut out,
            Json::object().field("name", Json::string(template.name.as_str())).field(
                "filePath",
                Json::string(template.file_path.as_str()),
            ).field("sourceInfo", template.source_info.duplicate()).field_opt(
                "description",
                description_value(template.description.as_str()),
            ).field_opt_str("argumentHint", as_opt_str(&template.argument_hint)).field_opt(
                "artifact",
                artifact_reference(session_id, cwd, "prompt", template.file_path.as_str()),
            ),
        );
        i = i + 1;
        assert(items_view(out@) =~= all.take(i as int));
    }
    assert(all.take(i as int) =~= all);
    out
}

fn context_resources(session_id: &str, cwd: &str, files: &Vec<String>) -> (r: Vec<Json>)
    ensures
        items_view(r@) == Seq::new(
            files@.len(),
            |i: int| context_resource(session_id@, cwd@, files@[i]@),
        ),
{
    let ghost all = Seq::new(
        files@.len(),
        |i: int| context_resource(session_id@, cwd@, files@[i]@),
    );
    let mut out = no_values();
    let mut i: usize = 0;
    assert(items_view(out@) =~= all.take(0));
    while i < files.len()
        invariant
            i <= files@.len(),
            all == Seq::new(files@.len(), |i: int| context_resource(session_id@, cwd@, files@[i]@)),
            items_view(out@) == all.take(i as int),
        decreases files@.len() - i,
    {
        push_value(
            &mut out,
            Json::object().field("path", Json::string(files[i].as_str())).field_opt(
                "artifact",
                artifact_reference(session_id, cwd, "context_file", files[i].as_str()),
            ),
        );
        i = i + 1;
        assert(items_view(out@) =~= all.take(i as int));
    }
    assert(all.take(i as int) =~= all);
    out
}

fn extension_diagnostics(errors: &Vec<String>) -> (r: Vec<Json>)
    ensures
        items_view(r@) == Seq::new(errors@.len(), |i: int| diagnostic_json(errors@[i]@)),
{
    let ghost all = Seq::new(errors@.len(), |i: int| diagnostic_json(errors@[i]@));
    let mut out = no_values();
    let mut i: usize = 0;
    assert(items_view(out@) =~= all.take(0));
    while i < errors.len()
        invariant
            i <= errors@.len(),
            all == Seq::new(errors@.len(), |i: int| diagnostic_json(errors@[i]@)),
            items_view(out@) == all.take(i as int),
        decreases errors@.len() - i,
    {
        push_value(
            &mut out,
            Json::object().field("type", Json::string("error")).field(
                "message",
                Json::string(errors[i].as_str()),
            ),
        );
        i = i + 1;
        assert(items_view(out@) =~= all.take(i as int));
    }
    assert(all.take(i as int) =~= all);
    out
}

/// The resources of a session as clients see them.
pub fn resource_snapshot(
    session_id: &str,
    cwd: &str,
    context_files: &Vec<String>,
    skills: &Vec<Skill>,
    templates: &Vec<PromptTemplate>,
    skill_diagnostics: &Json,
    extension_errors: &Vec<String>,
) -> (r: Json)
    ensures
        r@ == resources_json(
            session_id@,
            cwd@,
            context_files@,
            skills@,
            templates@,
            skill_diagnostics@,
            extension_errors@,
        ),
{
    let diagnostics = Json::object().field("skills", skill_diagnostics.duplicate()).field(
        "prompts",
        Json::empty_array(),
    ).field("extensions", Json::array(extension_diagnostics(extension_errors))).field(
        "themes",
        Json::empty_array(),
    );
    Json::object().field(
        "contextFiles",
        Json::array(context_resources(session_id, cwd, context_files)),
    ).field(
        "skills",
        Json::array(skill_resources(session_id, cwd, skills)),
    ).field("prompts", Json::array(template_resources(session_id, cwd, templates))).field(
        "extensions",
        Json::empty_array(),
    ).field("themes", Json::empty_array()).field("diagnostics", diagnostics)
}

// ---------------------------------------------------------------------------
// Goals
// ---------------------------------------------------------------------------

/// What is published of a goal: the last state that was told, where one was.
#[derive(Debug, PartialEq, Eq)]
pub struct PublishedGoal {
    pub state: Option<Json>,
}

/// The event for a goal's current state and what is published then. A state
/// that did not change is not told, and an idle one is not told first.
pub open spec fn goal_step(
    published: Option<JsonView>,
    current: Option<(JsonView, bool)>,
) -> (Option<JsonView>, Option<EventView>) {
    match current {
        None => (published, None),
        Some((goal, idle)) => if published == Some(goal) {
            (published, None)
        } else if published is None && idle {
            (Some(goal), None)
        } else {
            (Some(goal), Some(EventView::GoalUpdate { goal }))
        },
    }
}

/// The event for a goal's current state, where it is told; the state is none
/// while it cannot be read.
pub fn goal_update(published: &mut PublishedGoal, current: Option<(Json, bool)>) -> (r: Option<
    EngineEvent,
>)
    ensures
        (opt_view(final(published).state), crate::engine::opt_event(r)) == goal_step(
            opt_view(old(published).state),
            match current {
                Some((goal, idle)) => Some((goal@, idle)),
                None => None,
            },
        ),
{
    let (goal, idle) = match current {
        Some(current) => current,
        None => {
            return None;
        },
    };
    let mut silent = false;
    match &published.state {
        Some(state) => {
            if state.same(&goal) {
                return None;
            }
        },
        None => {
            silent = idle;
        },
    }
    published.state = Some(goal.duplicate());
    if silent {
        None
    } else {
        Some(EngineEvent::GoalUpdate { goal })
    }
}

/// A goal's state is told once: right after it was told or taken as the first
/// idle state, the same state is not told again.
pub proof fn law_goal_states_are_told_once(
    published: Option<JsonView>,
    goal: JsonView,
    idle: bool,
)
    ensures
        goal_step(goal_step(published, Some((goal, idle))).0, Some((goal, idle))).1 is None,
        goal_step(published, Some((goal, idle))).0 == Some(goal),
        !idle && published != Some(goal) ==> goal_step(published, Some((goal, idle))).1 == Some(
            EventView::GoalUpdate { goal },
        ),
{
}

// ---------------------------------------------------------------------------
// Accepting a prompt
// ---------------------------------------------------------------------------

/// An image that rides a prompt.
#[derive(Debug, PartialEq, Eq)]
pub struct ImageContent {
    pub data: String,
    pub mime_type: String,
}

/// A text block.
pub open spec fn text_block(text: Seq<char>) -> JsonView {
    JsonView::object().field("type"@, JsonView::Str("text"@)).field("text"@, JsonView::Str(text))
}

/// An image block.
pub open spec fn image_block(image: ImageContent) -> JsonView {
    JsonView::object().field("data"@, JsonView::Str(image.data@)).field(
        "mimeType"@,
        JsonView::Str(image.mime_type@),
    ).field("type"@, JsonView::Str("image"@))
}

/// The user message of a prompt: its text, then its images.
pub open spec fn user_message(text: Seq<char>, images: Seq<ImageContent>, now: u64) -> JsonView {
    JsonView::object().field("role"@, JsonView::Str("user"@)).field(
        "content"@,
        JsonView::Array(
            seq![text_block(text)] + Seq::new(images.len(), |i: int| image_block(images[i])),
        ),
    ).field("timestamp"@, JsonView::uint(now))
}

/// The row of an accepted prompt.
pub open spec fn row_of_prompt(
    message: Seq<char>,
    custom_message: Option<&Json>,
    images: Seq<ImageContent>,
    now: u64,
) -> EventView {
    match custom_message {
        Some(custom) => EventView::CustomMessage(custom@),
        None => EventView::UserMessage(user_message(message, images, now)),
    }
}

/// The row of an accepted prompt: the custom row it came with, else the user
/// message of its text and images.
pub fn accepted_row(
    message: &str,
    custom_message: Option<&Json>,
    images: &Vec<ImageContent>,
    now: u64,
) -> (r: EngineEvent)
    ensures
        r@ == row_of_prompt(message@, custom_message, images@, now),
{
    match custom_message {
        Some(custom) => {
            return EngineEvent::CustomMessage(custom.duplicate());
        },
        None => {},
    }
    let ghost blocks = Seq::new(images@.len(), |i: int| image_block(images@[i]));
    let mut content = no_values();
    push_value(
        &mut content,
        Json::object().field("type", Json::string("text")).field("text", Json::string(message)),
    );
    let mut i: usize = 0;
    assert(items_view(content@) =~= seq![text_block(message@)] + blocks.take(0));
    while i < images.len()
        invariant
            i <= images@.len(),
            blocks == Seq::new(images@.len(), |i: int| image_block(images@[i])),
            items_view(content@) == seq![text_block(message@)] + blocks.take(i as int),
        decreases images@.len() - i,
    {
        push_value(
            &mut content,
            Json::object().field("data", Json::string(images[i].data.as_str())).field(
                "mimeType",
                Json::string(images[i].mime_type.as_str()),
            ).field("type", Json::string("image")),
        );
        i = i + 1;
        assert(items_view(content@) =~= seq![text_block(message@)] + blocks.take(i as int));
    }
    assert(blocks.take(i as int) =~= blocks);
    EngineEvent::UserMessage(
        Json::object().field("role", Json::string("user")).field("content", Json::array(content)).field(
            "timestamp",
            Json::uint(now),
        ),
    )
}

/// How a prompt begins.
#[derive(Debug, PartialEq, Eq)]
pub enum PromptStart {
    /// It is a session command: no turn is admitted for it.
    Command(SessionSlashCommand),
    /// Its row is told, then its turns run.
    Turns { accepted: EngineEvent },
}

/// Whether a prompt begins so.
pub open spec fn is_prompt_start(
    start: PromptStart,
    message: Seq<char>,
    custom_message: Option<&Json>,
    images: Seq<ImageContent>,
    now: u64,
) -> bool {
    match start {
        PromptStart::Command(command) => session_command(message) == Some(
            (command.name@, command.args@),
        ),
        PromptStart::Turns { accepted } => session_command(message) is None && accepted@
            == match custom_message {
            Some(custom) => EventView::CustomMessage(custom@),
            None => EventView::UserMessage(user_message(message, images, now)),
        },
    }
}

/// How a prompt begins: a session command is run as one, and any other prompt
/// is accepted with its row.
pub fn run_prompt(
    message: &str,
    custom_message: Option<&Json>,
    images: &Vec<ImageContent>,
    now: u64,
) -> (r: PromptStart)
    ensures
        is_prompt_start(r, message@, custom_message, images@, now),
{
    match parse_prompt_session_command(message) {
        Some(command) => PromptStart::Command(command),
        None => PromptStart::Turns { accepted: accepted_row(message, custom_message, images, now) },
    }
}

// ---------------------------------------------------------------------------
// One turn
// ---------------------------------------------------------------------------

/// Who a message of the loop is from.
#[derive(Debug, Clone, Copy, PartialEq, Eq, Structural)]
pub enum MessageKind {
    User,
    Assistant,
    ToolResult,
    Other,
}

/// A message of the loop, and the form it is sent in where it has one.
#[derive(Debug, PartialEq, Eq)]
pub struct LoopMessage {
    pub kind: MessageKind,
    pub wire: Option<Json>,
}

/// One event of a provider's stream.
#[derive(Debug, PartialEq, Eq)]
pub enum StreamEvent {
    Start,
    TextStart,
    TextDelta(String),
    TextEnd,
    ThinkingStart,
    ThinkingDelta(String),
    ThinkingEnd,
    ToolCallStart,
    ToolCallDelta(String),
    ToolCallEnd,
    Done,
    Error,
}

/// A stream event of one kind, with what it added where it added something.
pub open spec fn stream_json(kind: Seq<char>, delta: Option<Seq<char>>) -> JsonView {
    JsonView::object().field("type"@, JsonView::Str(kind)).field_opt("delta"@, opt_string(delta))
}

/// A stream event as it is sent; the end of a stream is not.
pub open spec fn stream_event_json(event: StreamEvent) -> Option<JsonView> {
    match event {
        StreamEvent::Start => Some(stream_json("start"@, None)),
        StreamEvent::TextStart => Some(stream_json("text_start"@, None)),
        StreamEvent::TextDelta(delta) => Some(stream_json("text_delta"@, Some(delta@))),
        StreamEvent::TextEnd => Some(stream_json("text_end"@, None)),
        StreamEvent::ThinkingStart => Some(stream_json("thinking_start"@, None)),
        StreamEvent::ThinkingDelta(delta) => Some(stream_json("thinking_delta"@, Some(delta@))),
        StreamEvent::ThinkingEnd => Some(stream_json("thinking_end"@, None)),
        StreamEvent::ToolCallStart => Some(stream_json("toolcall_start"@, None)),
        StreamEvent::ToolCallDelta(delta) => Some(stream_json("toolcall_delta"@, Some(delta@))),
        StreamEvent::ToolCallEnd => Some(stream_json("toolcall_end"@, None)),
        StreamEvent::Done | StreamEvent::Error => None,
    }
}

fn stream_value(kind: &str, delta: Option<&str>) -> (r: Json)
    ensures
        r@ == stream_json(kind@, opt_str(delta)),
{
    Json::object().field("type", Json::string(kind)).field_opt_str("delta", delta)
}

/// A stream event as it is sent; the end of a stream is not.
pub fn stream_event_value(event: &StreamEvent) -> (r: Option<Json>)
    ensures
        opt_view(r) == stream_event_json(*event),
{
    match event {
        StreamEvent::Start => Some(stream_value("start", None)),
        StreamEvent::TextStart => Some(stream_value("text_start", None)),
        StreamEvent::TextDelta(delta) => Some(stream_value("text_delta", Some(delta.as_str()))),
        StreamEvent::TextEnd => Some(stream_value("text_end", None)),
        StreamEvent::ThinkingStart => Some(stream_value("thinking_start", None)),
        StreamEvent::ThinkingDelta(delta) => Some(
            stream_value("thinking_delta", Some(delta.as_str())),
        ),
        StreamEvent::ThinkingEnd => Some(stream_value("thinking_end", None)),
        StreamEvent::ToolCallStart => Some(stream_value("toolcall_start", None)),
        StreamEvent::ToolCallDelta(delta) => Some(
            stream_value("toolcall_delta", Some(delta.as_str())),
        ),
        StreamEvent::ToolCallEnd => Some(stream_value("toolcall_end", None)),
        StreamEvent::Done | StreamEvent::Error => None,
    }
}

/// The result of a tool.
#[derive(Debug, PartialEq, Eq)]
pub struct ToolResult {
    pub content: Vec<Json>,
    pub details: Json,
}

/// The result of a tool as it is sent.
pub open spec fn tool_result_json(result: ToolResult) -> JsonView {
    JsonView::object().field("content"@, JsonView::Array(items_view(result.content@))).field(
        "details"@,
        result.details@,
    )
}

/// The result of a tool as it is sent.
pub fn tool_result_wire_value(result: &ToolResult) -> (r: Json)
    ensures
        r@ == tool_result_json(*result),
{
    Json::object().field(
        "content",
        Json::array(crate::json::duplicate_all(&result.content)),
    ).field("details", result.details.duplicate())
}

/// One event of the agent loop.
#[derive(Debug, PartialEq, Eq)]
pub enum AgentEvent {
    MessageStart { message: LoopMessage },
    MessageUpdate { message: LoopMessage, stream: StreamEvent },
    MessageEnd { message: LoopMessage },
    ToolExecutionStart { tool_call_id: String, tool_name: String, args: Json },
    ToolExecutionUpdate { tool_call_id: String, partial_result: ToolResult },
    ToolExecutionEnd { tool_call_id: String, result: ToolResult, is_error: bool },
    Other,
}

/// What the worker is told of an event of the loop: assistant messages as they
/// stream, assistant messages and tool results as they settle, and the calls of
/// tools.
pub open spec fn forwarded(event: AgentEvent) -> Option<EventView> {
    match event {
        AgentEvent::MessageStart { message } => if message.kind == MessageKind::Assistant
            && message.wire is Some {
            Some(
                EventView::AssistantUpdate {
                    message: message.wire->0@,
                    stream_event: Some(stream_json("start"@, None)),
                },
            )
        } else {
            None
        },
        AgentEvent::MessageUpdate { message, stream } => if message.kind == MessageKind::Assistant
            && message.wire is Some {
            Some(
                EventView::AssistantUpdate {
                    message: message.wire->0@,
                    stream_event: stream_event_json(stream),
                },
            )
        } else {
            None
        },
        AgentEvent::MessageEnd { message } => match (message.kind, message.wire) {
            (MessageKind::Assistant, Some(wire)) => Some(EventView::AssistantMessage(wire@)),
            (MessageKind::ToolResult, Some(wire)) => Some(EventView::ToolResultMessage(wire@)),
            _ => None,
        },
        AgentEvent::ToolExecutionStart { tool_call_id, tool_name, args } => Some(
            EventView::ToolExecutionStart {
                tool_call_id: tool_call_id@,
                tool_name: tool_name@,
                args: args@,
            },
        ),
        AgentEvent::ToolExecutionUpdate { tool_call_id, partial_result } => Some(
            EventView::ToolExecutionUpdate {
                tool_call_id: tool_call_id@,
                partial_result: tool_result_json(partial_result),
            },
        ),
        AgentEvent::ToolExecutionEnd { tool_call_id, result, is_error } => Some(
            EventView::ToolExecutionEnd {
                tool_call_id: tool_call_id@,
                result: tool_result_json(result),
                is_error,
            },
        ),
        AgentEvent::Other => None,
    }
}

/// What the worker is told of an event of the loop.
pub fn forward_event(event: &AgentEvent) -> (r: Option<EngineEvent>)
    ensures
        crate::engine::opt_event(r) == forwarded(*event),
{
    match event {
        AgentEvent::MessageStart { message } => match (message.kind, &message.wire) {
            (MessageKind::Assistant, Some(wire)) => Some(
                EngineEvent::AssistantUpdate {
                    message: wire.duplicate(),
                    stream_event: Some(stream_value("start", None)),
                },
            ),
            _ => None,
        },
        AgentEvent::MessageUpdate { message, stream } => match (message.kind, &message.wire) {
            (MessageKind::Assistant, Some(wire)) => Some(
                EngineEvent::AssistantUpdate {
                    message: wire.duplicate(),
                    stream_event: stream_event_value(stream),
                },
            ),
            _ => None,
        },
        AgentEvent::MessageEnd { message } => match (message.kind, &message.wire) {
            (MessageKind::Assistant, Some(wire)) => Some(
                EngineEvent::AssistantMessage(wire.duplicate()),
            ),
            (MessageKind::ToolResult, Some(wire)) => Some(
                EngineEvent::ToolResultMessage(wire.duplicate()),
            ),
            _ => None,
        },
        AgentEvent::ToolExecutionStart { tool_call_id, tool_name, args } => Some(
            EngineEvent::ToolExecutionStart {
                tool_call_id: tool_call_id.clone(),
                tool_name: tool_name.clone(),
                args: args.duplicate(),
            },
        ),
        AgentEvent::ToolExecutionUpdate { tool_call_id, partial_result } => Some(
            EngineEvent::ToolExecutionUpdate {
                tool_call_id: tool_call_id.clone(),
                partial_result: tool_result_wire_value(partial_result),
            },
        ),
        AgentEvent::ToolExecutionEnd { tool_call_id, result, is_error } => Some(
            EngineEvent::ToolExecutionEnd {
                tool_call_id: tool_call_id.clone(),
                result: tool_result_wire_value(result),
                is_error: *is_error,
            },
        ),
        AgentEvent::Other => None,
    }
}

/// Why an assistant message ended.
#[derive(Debug, Clone, Copy, PartialEq, Eq, Structural)]
pub enum StopReason {
    Stop,
    Length,
    ToolUse,
    Error,
    Aborted,
}

/// Whether a settled message counts toward the autonomous limits: every one but
/// a failed one.
pub open spec fn accounted(stop_reason: StopReason) -> bool {
    stop_reason != StopReason::Error
}

/// Whether a settled message counts toward the autonomous limits.
pub fn accounts_message(stop_reason: StopReason) -> (r: bool)
    ensures
        r == accounted(stop_reason),
{
    stop_reason != StopReason::Error
}

/// The id that a settled message's spend of the goal's budget is counted under:
/// failed and aborted messages spend nothing.
pub open spec fn spend_id(stop_reason: StopReason, timestamp: u64) -> Option<Seq<char>> {
    match stop_reason {
        StopReason::Error | StopReason::Aborted => None,
        _ => Some("a-"@ + decimal(timestamp as nat)),
    }
}

/// Whether a settled message spends the goal's budget, and the id it is counted
/// under.
pub fn goal_usage_id(stop_reason: StopReason, timestamp: u64) -> (r: Option<String>)
    ensures
        opt_text(r) == spend_id(stop_reason, timestamp),
{
    match stop_reason {
        StopReason::Error | StopReason::Aborted => None,
        _ => Some(concat2("a-", decimal_text(timestamp).as_str())),
    }
}

/// What ended the wait of the forwarding loop.
#[derive(Debug, PartialEq, Eq)]
pub enum ForwardEvent {
    /// An event was handed to the worker, which accepted it or not.
    Handed { accepted: bool },
    /// No more events come.
    Closed,
    /// The turn settled, well or with an error; the events that raced it were
    /// handed over, and all accepted or not.
    Settled { error: Option<String>, drained: bool },
}

/// The forwarding loop of one turn.
#[derive(Debug, PartialEq, Eq)]
pub struct Forwarding {
    pub aborted: bool,
    pub settled: bool,
    pub closed: bool,
    pub error: Option<String>,
}

impl Forwarding {
    /// The loop once a wait of it ended: a refused event aborts the turn, and an
    /// error of a settled turn is kept.
    pub open spec fn stepped(self, event: ForwardEvent) -> Forwarding {
        match event {
            ForwardEvent::Handed { accepted } => Forwarding {
                aborted: self.aborted || !accepted,
                ..self
            },
            ForwardEvent::Closed => Forwarding { closed: true, ..self },
            ForwardEvent::Settled { error, drained } => Forwarding {
                settled: true,
                aborted: self.aborted || !drained,
                error: if error is Some {
                    error
                } else {
                    self.error
                },
                ..self
            },
        }
    }

    /// A turn that was just admitted.
    pub fn new() -> (r: Forwarding)
        ensures
            !r.aborted && !r.settled && !r.closed && r.error is None,
    {
        Forwarding { aborted: false, settled: false, closed: false, error: None }
    }

    /// Take what ended the wait: a refused event aborts the turn, and an error
    /// of a settled turn is kept. The loop goes on until the turn is aborted or
    /// settled or no more events come.
    pub fn step(&mut self, event: ForwardEvent) -> (r: bool)
        ensures
            r == !(final(self).aborted || final(self).settled || final(self).closed),
            *final(self) == old(self).stepped(event),
    {
        match event {
            ForwardEvent::Handed { accepted } => {
                if !accepted {
                    self.aborted = true;
                }
            },
            ForwardEvent::Closed => {
                self.closed = true;
            },
            ForwardEvent::Settled { error, drained } => {
                self.settled = true;
                if error.is_some() {
                    self.error = error;
                }
                if !drained {
                    self.aborted = true;
                }
            },
        }
        !(self.aborted || self.settled || self.closed)
    }
}

/// How one attempt at a turn ended.
#[derive(Debug, PartialEq, Eq)]
pub enum TurnOnce {
    /// An event was refused.
    Aborted,
    /// There is no usable assistant message.
    NoAnswer,
    /// The last assistant message, by its place in the transcript.
    Message { at: usize },
    /// The admission failed.
    Failed { error: String },
}

/// The place of the last assistant message of a transcript; minus one where
/// there is none.
pub open spec fn last_assistant(messages: Seq<LoopMessage>) -> int
    decreases messages.len(),
{
    if messages.len() == 0 {
        -1
    } else if messages.last().kind == MessageKind::Assistant {
        messages.len() - 1
    } else {
        last_assistant(messages.drop_last())
    }
}

/// How one attempt at a turn ended: a refused event aborts it whatever else
/// happened, then an admission error fails it, and else its last assistant
/// message decides.
pub open spec fn attempt_end(forwarding: Forwarding, messages: Seq<LoopMessage>) -> TurnOnce {
    let at = last_assistant(messages);
    if forwarding.aborted {
        TurnOnce::Aborted
    } else if forwarding.error is Some {
        TurnOnce::Failed { error: forwarding.error->0 }
    } else if at >= 0 && messages[at].wire is Some {
        TurnOnce::Message { at: at as usize }
    } else {
        TurnOnce::NoAnswer
    }
}

proof fn lemma_last_assistant(messages: Seq<LoopMessage>)
    ensures
        -1 <= last_assistant(messages) < messages.len(),
    decreases messages.len(),
{
    if messages.len() > 0 {
        lemma_last_assistant(messages.drop_last());
    }
}

/// How one attempt at a turn ended.
pub fn run_turn_once(forwarding: Forwarding, messages: &Vec<LoopMessage>) -> (r: TurnOnce)
    ensures
        r == attempt_end(forwarding, messages@),
{
    proof {
        lemma_last_assistant(messages@);
    }
    if forwarding.aborted {
        return TurnOnce::Aborted;
    }
    match forwarding.error {
        Some(error) => {
            return TurnOnce::Failed { error };
        },
        None => {},
    }
    let mut n: usize = messages.len();
    assert(messages@.take(n as int) =~= messages@);
    while n > 0
        invariant
            n <= messages@.len(),
            last_assistant(messages@) == last_assistant(messages@.take(n as int)),
            !forwarding.aborted,
            forwarding.error is None,
        decreases n,
    {
        assert(messages@.take(n as int).last() == messages@[n - 1]);
        assert(messages@.take(n as int).drop_last() =~= messages@.take(n - 1));
        if messages[n - 1].kind == MessageKind::Assistant {
            if messages[n - 1].wire.is_some() {
                return TurnOnce::Message { at: n - 1 };
            }
            return TurnOnce::NoAnswer;
        }
        n = n - 1;
    }
    TurnOnce::NoAnswer
}

/// A transcript without its last message where that is an assistant's.
pub open spec fn retried(messages: Seq<LoopMessage>) -> Seq<LoopMessage> {
    if messages.len() > 0 && messages.last().kind == MessageKind::Assistant {
        messages.drop_last()
    } else {
        messages
    }
}

/// Drop a transcript's last message where it is an assistant's, so that a
/// retried request does not carry the failed one.
pub fn drop_trailing_assistant(messages: &mut Vec<LoopMessage>) -> (r: bool)
    ensures
        r == (retried(old(messages)@).len() < old(messages)@.len()),
        final(messages)@ == retried(old(messages)@),
{
    let n = messages.len();
    if n > 0 && messages[n - 1].kind == MessageKind::Assistant {
        let _ = messages.pop();
        assert(messages@ =~= old(messages)@.drop_last());
        return true;
    }
    false
}

// ---------------------------------------------------------------------------
// A turn with its retries
// ---------------------------------------------------------------------------

/// How a turn enters the loop.
#[derive(Debug, Clone, Copy, PartialEq, Eq, Structural)]
pub enum TurnAdmission {
    /// With a new user message.
    FreshPrompt,
    /// Without one: the loop goes on from where it is.
    Continue,
}

/// How an attempt starts.
#[derive(Debug, Clone, Copy, PartialEq, Eq, Structural)]
pub enum AttemptStart {
    /// Prompt the session.
    Prompt,
    /// Drop the failed message and go on.
    DropAndContinue,
}

/// How attempt number `attempt` of a turn starts: only the first one of a fresh
/// prompt prompts the session.
pub open spec fn start_of(admission: TurnAdmission, attempt: u32) -> AttemptStart {
    if admission == TurnAdmission::FreshPrompt && attempt == 0 {
        AttemptStart::Prompt
    } else {
        AttemptStart::DropAndContinue
    }
}

/// How attempt number `attempt` of a turn starts.
pub fn attempt_start(admission: TurnAdmission, attempt: u32) -> (r: AttemptStart)
    ensures
        r == start_of(admission, attempt),
{
    if admission == TurnAdmission::FreshPrompt && attempt == 0 {
        AttemptStart::Prompt
    } else {
        AttemptStart::DropAndContinue
    }
}

/// What a turn's requests go to: a model, the thinking level, and the key.
#[derive(Debug, PartialEq, Eq)]
pub struct FailoverTarget {
    pub model: ModelRef,
    pub thinking: String,
    pub api_key: Option<String>,
}

/// The mathematical target behind a [`FailoverTarget`].
#[verifier::ext_equal]
pub struct TargetView {
    pub model: ModelView,
    pub thinking: Seq<char>,
    pub api_key: Option<Seq<char>>,
}

impl View for FailoverTarget {
    type V = TargetView;

    open spec fn view(&self) -> TargetView {
        TargetView {
            model: self.model@,
            thinking: self.thinking@,
            api_key: opt_text(self.api_key),
        }
    }
}

impl FailoverTarget {
    fn copy(&self) -> (r: FailoverTarget)
        ensures
            r@ == self@,
    {
        FailoverTarget {
            model: self.model.copy(),
            thinking: self.thinking.clone(),
            api_key: copy_opt(&self.api_key),
        }
    }
}

/// What a turn runs on while it fails over, and what it started on once it left
/// it.
#[derive(Debug, PartialEq, Eq)]
pub struct Failover {
    pub current: FailoverTarget,
    pub primary: Option<FailoverTarget>,
}

/// The mathematical state behind a [`Failover`].
#[verifier::ext_equal]
pub struct FailoverView {
    pub current: TargetView,
    pub primary: Option<TargetView>,
}

impl View for Failover {
    type V = FailoverView;

    open spec fn view(&self) -> FailoverView {
        FailoverView {
            current: self.current@,
            primary: match self.primary {
                Some(primary) => Some(primary@),
                None => None,
            },
        }
    }
}

impl FailoverView {
    /// The state once the turn went over to another target.
    pub open spec fn switched(self, next: TargetView) -> FailoverView {
        FailoverView {
            current: next,
            primary: if self.primary is Some {
                self.primary
            } else {
                Some(self.current)
            },
        }
    }

    /// The state once the turn settled.
    pub open spec fn restored(self) -> FailoverView {
        FailoverView {
            current: match self.primary {
                Some(primary) => primary,
                None => self.current,
            },
            primary: self.primary,
        }
    }
}

impl Failover {
    /// Go over to another target; the one the turn started on is kept the first
    /// time. The model that the change is recorded under is given back.
    pub fn switch(&mut self, next: FailoverTarget) -> (r: ModelRef)
        ensures
            final(self)@ == old(self)@.switched(next@),
            r@ == next@.model,
    {
        if self.primary.is_none() {
            self.primary = Some(self.current.copy());
        }
        let model = next.model.copy();
        self.current = next;
        model
    }

    /// Go back to the target the turn started on, where it left it, and name
    /// its model.
    pub fn restore(&mut self) -> (r: Option<String>)
        ensures
            final(self)@ == old(self)@.restored(),
            opt_text(r) == match old(self)@.primary {
                Some(primary) => Some(primary.model.provider + "/"@ + primary.model.id),
                None => None,
            },
    {
        match &self.primary {
            Some(primary) => {
                let name = model_selector(&primary.model);
                let back = primary.copy();
                self.current = back;
                Some(name)
            },
            None => None,
        }
    }
}

/// The state after a run of switches.
pub open spec fn switched_all(state: FailoverView, targets: Seq<TargetView>) -> FailoverView
    decreases targets.len(),
{
    if targets.len() == 0 {
        state
    } else {
        switched_all(state, targets.drop_last()).switched(targets.last())
    }
}

/// A settled turn is back on the model, the level and the key it started on,
/// however often it went over to others.
pub proof fn law_failover_restores_the_primary(start: TargetView, targets: Seq<TargetView>)
    ensures
        switched_all(FailoverView { current: start, primary: None }, targets).restored().current
            == start,
        targets.len() > 0 ==> switched_all(
            FailoverView { current: start, primary: None },
            targets,
        ).primary == Some(start),
    decreases targets.len(),
{
    if targets.len() > 0 {
        law_failover_restores_the_primary(start, targets.drop_last());
        if targets.len() == 1 {
            assert(targets.drop_last() =~= Seq::empty());
        }
    }
}

/// The models a session can fail over to: those that were found for it, and none
/// for a scripted session.
pub open spec fn failover_models(scripted: bool, found: Seq<ModelRef>) -> Seq<ModelRef> {
    if scripted {
        Seq::empty()
    } else {
        found
    }
}

/// Whether each of a run of targets is on one of the given models.
pub open spec fn among(targets: Seq<TargetView>, models: Seq<ModelRef>) -> bool {
    forall|i: int|
        0 <= i < targets.len() ==> exists|j: int|
            0 <= j < models.len() && (#[trigger] models[j])@ == (#[trigger] targets[i]).model
}

/// A scripted session never fails over: whatever models were found for it, a
/// turn that goes over only to those it may stays on the target it started on.
pub proof fn law_scripted_sessions_never_fail_over(
    found: Seq<ModelRef>,
    start: FailoverView,
    targets: Seq<TargetView>,
)
    requires
        among(targets, failover_models(true, found)),
    ensures
        switched_all(start, targets) == start,
{
    if targets.len() > 0 {
        let first = targets[0];
        assert(exists|j: int|
            0 <= j < failover_models(true, found).len() && (#[trigger] failover_models(
                true,
                found,
            )[j])@ == first.model);
    }
}

/// One event of the retrying.
#[derive(Debug, PartialEq, Eq)]
pub enum AutoRetryEvent {
    Start {
        attempt: u32,
        max_attempts: u32,
        delay_ms: u64,
        error_message: String,
        reason: RetryStartReason,
    },
    End {
        success: bool,
        attempt: u32,
        final_error: Option<String>,
        restored_model: Option<String>,
    },
}

/// An event of the retrying as the worker is told of it.
pub open spec fn retry_told(event: AutoRetryEvent) -> EventView {
    match event {
        AutoRetryEvent::Start {
            attempt,
            max_attempts,
            delay_ms,
            error_message,
            reason,
        } => EventView::AutoRetryStart {
            attempt,
            max_attempts,
            delay_ms,
            error_message: error_message@,
            backup: reason.backup(),
        },
        AutoRetryEvent::End {
            success,
            attempt,
            final_error,
            restored_model,
        } => EventView::AutoRetryEnd {
            success,
            attempt,
            final_error: opt_text(final_error),
            restored_model: opt_text(restored_model),
        },
    }
}

/// An event of the retrying as the worker is told of it.
pub fn retry_event_to_engine_event(event: AutoRetryEvent) -> (r: EngineEvent)
    ensures
        r@ == retry_told(event),
{
    match event {
        AutoRetryEvent::Start {
            attempt,
            max_attempts,
            delay_ms,
            error_message,
            reason,
        } => EngineEvent::AutoRetryStart { attempt, max_attempts, delay_ms, error_message, reason },
        AutoRetryEvent::End { success, attempt, final_error, restored_model } => EngineEvent::AutoRetryEnd {
            success,
            attempt,
            final_error,
            restored_model,
        },
    }
}

/// Whether a retry goes over to another provider.
pub open spec fn fails_over(event: AutoRetryEvent) -> bool {
    event matches AutoRetryEvent::Start { reason, .. } && reason is Backup
}

/// Whether a retry goes over to another provider.
pub fn is_failover(event: &AutoRetryEvent) -> (r: bool)
    ensures
        r == fails_over(*event),
{
    match event {
        AutoRetryEvent::Start { reason, .. } => match reason {
            RetryStartReason::Backup { .. } => true,
            RetryStartReason::SameModel => false,
        },
        AutoRetryEvent::End { .. } => false,
    }
}

/// What the wait before a retry does next.
#[derive(Debug, Clone, Copy, PartialEq, Eq, Structural)]
pub enum RetryWait {
    /// The wait was aborted.
    Stop,
    /// The wait is over.
    Retry,
    /// Look again after the pause.
    Sleep { ms: u64 },
}

/// One look of the wait before a retry.
pub open spec fn retry_look(aborted: bool, deadline_passed: bool) -> RetryWait {
    if aborted {
        RetryWait::Stop
    } else if deadline_passed {
        RetryWait::Retry
    } else {
        RetryWait::Sleep { ms: 50 }
    }
}

/// One look of the wait before a retry.
pub fn retry_wait(aborted: bool, deadline_passed: bool) -> (r: RetryWait)
    ensures
        r == retry_look(aborted, deadline_passed),
{
    if aborted {
        RetryWait::Stop
    } else if deadline_passed {
        RetryWait::Retry
    } else {
        RetryWait::Sleep { ms: 50 }
    }
}

/// The message that a turn ended with.
#[derive(Debug, PartialEq, Eq)]
pub struct FinalMessage {
    pub stop_reason: StopReason,
    pub error_message: Option<String>,
}

/// How an admitted turn ended.
#[derive(Debug, PartialEq, Eq)]
pub enum TurnResult {
    /// It settled with a message.
    Message,
    Aborted,
    /// It failed; `answered` where the failure is a settled message.
    Error { error: String, answered: bool },
}

/// The mathematical result behind a [`TurnResult`].
#[verifier::ext_equal]
pub enum TurnView {
    Message,
    Aborted,
    Error { error: Seq<char>, answered: bool },
}

impl View for TurnResult {
    type V = TurnView;

    open spec fn view(&self) -> TurnView {
        match self {
            TurnResult::Message => TurnView::Message,
            TurnResult::Aborted => TurnView::Aborted,
            TurnResult::Error { error, answered } => TurnView::Error {
                error: error@,
                answered: *answered,
            },
        }
    }
}

/// How a turn ended: a failed message gives its error, or a general one where
/// it has none; an aborted one aborts; any other is the turn's message. Without
/// a message the turn failed.
pub open spec fn turn_result(result: Result<FinalMessage, String>) -> TurnView {
    match result {
        Ok(message) => match message.stop_reason {
            StopReason::Error => TurnView::Error {
                error: match opt_text(message.error_message) {
                    Some(error) if error.len() > 0 => error,
                    _ => "Assistant response failed"@,
                },
                answered: true,
            },
            StopReason::Aborted => TurnView::Aborted,
            _ => TurnView::Message,
        },
        Err(error) => TurnView::Error { error: error@, answered: false },
    }
}

/// How a turn ended, by its last message or the failure to get one.
pub fn run_model_turn(result: Result<FinalMessage, String>) -> (r: TurnResult)
    ensures
        r@ == turn_result(result),
{
    match result {
        Ok(message) => match message.stop_reason {
            StopReason::Error => {
                let error = match message.error_message {
                    Some(error) => if is_empty_text(error.as_str()) {
                        "Assistant response failed".to_owned()
                    } else {
                        error
                    },
                    None => "Assistant response failed".to_owned(),
                };
                TurnResult::Error { error, answered: true }
            },
            StopReason::Aborted => TurnResult::Aborted,
            _ => TurnResult::Message,
        },
        Err(error) => TurnResult::Error { error, answered: false },
    }
}

/// Whether a result is what an attempt hands the retrying: the message it ended
/// with, an aborted one for an aborted attempt, and an error for one without a
/// message.
pub open spec fn is_attempt_result(
    result: Result<FinalMessage, String>,
    attempt: TurnOnce,
    stop_reason: StopReason,
    error_message: Option<String>,
) -> bool {
    match attempt {
        TurnOnce::Message { .. } => result == Ok::<FinalMessage, String>(
            FinalMessage { stop_reason, error_message },
        ),
        TurnOnce::Aborted => result is Ok && result->Ok_0.stop_reason == StopReason::Aborted
            && result->Ok_0.error_message is None,
        TurnOnce::NoAnswer => result is Err && result->Err_0@ == "No response produced."@,
        TurnOnce::Failed { error } => result == Err::<FinalMessage, String>(error),
    }
}

/// What an attempt hands the retrying.
pub fn attempt_message(
    attempt: TurnOnce,
    stop_reason: StopReason,
    error_message: Option<String>,
) -> (r: Result<FinalMessage, String>)
    ensures
        is_attempt_result(r, attempt, stop_reason, error_message),
{
    match attempt {
        TurnOnce::Message { .. } => Ok(FinalMessage { stop_reason, error_message }),
        TurnOnce::Aborted => Ok(
            FinalMessage { stop_reason: StopReason::Aborted, error_message: None },
        ),
        TurnOnce::NoAnswer => Err("No response produced.".to_owned()),
        TurnOnce::Failed { error } => Err(error),
    }
}

// ---------------------------------------------------------------------------
// The turn boundary
// ---------------------------------------------------------------------------

/// What a turn boundary did to the run.
#[derive(Debug, Clone, Copy, PartialEq, Eq, Structural)]
pub enum BoundaryRun {
    Proceed,
    /// A requested compaction was served: the run stops on purpose.
    StoppedForCompaction,
    /// An event was refused.
    Cancelled,
}

/// A requested refinement that ran: whether each of its edits was applied, and
/// the notice of it.
#[derive(Debug, PartialEq, Eq)]
pub struct RefinementRun {
    pub applied_edits: Vec<bool>,
    pub notice: Json,
}

/// What a turn boundary served: a requested compaction's outcome, and a
/// requested refinement that ran.
#[derive(Debug, PartialEq, Eq)]
pub struct BoundaryRequests {
    pub compaction: Option<CompactOutcome>,
    pub refinement: Option<RefinementRun>,
}

/// The events that a turn boundary is told by: the compaction's, then the
/// notice of a refinement that applied an edit.
pub open spec fn boundary_events_of(requests: BoundaryRequests) -> Seq<EventView> {
    let compaction = match requests.compaction {
        Some(outcome) => outcome_events(
            CompactionReason::Requested,
            "Requested compaction"@,
            None,
            outcome,
        ),
        None => Seq::empty(),
    };
    match requests.refinement {
        Some(refinement) if refinement.applied_edits@.contains(true) => compaction.push(
            EventView::CustomMessage(refinement.notice@),
        ),
        _ => compaction,
    }
}

fn any_applied(edits: &Vec<bool>) -> (r: bool)
    ensures
        r == edits@.contains(true),
{
    let mut i: usize = 0;
    while i < edits.len()
        invariant
            i <= edits@.len(),
            forall|j: int| 0 <= j < i ==> !#[trigger] edits@[j],
        decreases edits@.len() - i,
    {
        if edits[i] {
            assert(edits@[i as int]);
            return true;
        }
        i = i + 1;
    }
    false
}

/// The events that a turn boundary is told by, and whether it stops the run
/// where they are all accepted.
pub fn run_turn_boundary(requests: BoundaryRequests) -> (r: (Vec<EngineEvent>, bool))
    ensures
        events_view(r.0@) == boundary_events_of(requests),
        r.1 == (requests.compaction is Some),
{
    let mut stops = false;
    let mut events: Vec<EngineEvent> = match requests.compaction {
        Some(outcome) => {
            stops = true;
            compaction_events(CompactionReason::Requested, "Requested compaction", None, outcome)
        },
        None => Vec::new(),
    };
    assert(requests.compaction is None ==> events_view(events@) =~= Seq::empty());
    match requests.refinement {
        Some(refinement) => {
            if any_applied(&refinement.applied_edits) {
                let ghost before = events_view(events@);
                let notice = refinement.notice;
                events.push(EngineEvent::CustomMessage(notice));
                assert(events_view(events@) =~= before.push(EventView::CustomMessage(notice@)));
            }
        },
        None => {},
    }
    (events, stops)
}

/// What a turn boundary did, given whether its events were all accepted.
pub open spec fn boundary_run(stops: bool, all_accepted: bool) -> BoundaryRun {
    if !all_accepted {
        BoundaryRun::Cancelled
    } else if stops {
        BoundaryRun::StoppedForCompaction
    } else {
        BoundaryRun::Proceed
    }
}

/// What a turn boundary did, given whether its events were all accepted.
pub fn boundary_verdict(stops: bool, all_accepted: bool) -> (r: BoundaryRun)
    ensures
        r == boundary_run(stops, all_accepted),
{
    if !all_accepted {
        BoundaryRun::Cancelled
    } else if stops {
        BoundaryRun::StoppedForCompaction
    } else {
        BoundaryRun::Proceed
    }
}

// ---------------------------------------------------------------------------
// The turns of a prompt
// ---------------------------------------------------------------------------

/// What the compaction of an overflowing context did about a failed turn.
#[derive(Debug, Clone, Copy, PartialEq, Eq, Structural)]
pub enum OverflowArmRun {
    NotApplicable,
    /// The context was compacted: the turn is tried once more.
    RetryTurn,
    Finished,
    Cancelled,
}

/// What the autonomous driver wants after a settled turn.
#[derive(Debug, PartialEq, Eq)]
pub enum FollowUp {
    Inactive,
    Continue { text: String },
    Stop { row: Json },
}

/// Where the turns of a prompt are.
#[derive(Debug, PartialEq, Eq)]
pub enum LoopStage {
    /// Before a turn: a stale overflow is looked after.
    PreOverflow,
    /// Before a turn: the threshold is checked.
    PreCompaction,
    /// The turn runs.
    Turn,
    /// The turn failed with this error: the overflow arm looks at it.
    Overflow { error: String },
    /// The turn settled: its requests are served.
    Boundary,
    /// The turn settled: the threshold is checked.
    PostCompaction,
    /// The driver is asked what follows.
    Driver,
    /// The driver's continuation is told.
    Continuation { text: String },
    Finished,
}

/// The turns of a prompt: where they are, the prompt of the next turn, whether
/// it is the first, and whether it tries an overflowed turn again.
#[derive(Debug, PartialEq, Eq)]
pub struct TurnLoop {
    pub stage: LoopStage,
    pub prompt: String,
    pub first: bool,
    pub overflow_retry: bool,
}

/// What happened to the turns of a prompt.
#[derive(Debug, PartialEq, Eq)]
pub enum LoopEvent {
    /// A stale overflow was looked after, and its events were accepted or not.
    PreOverflow { accepted: bool },
    /// The threshold was checked.
    Compacted(AutoCompactionRun),
    /// The turn ended.
    Turned(TurnResult),
    /// The overflow arm looked at the failed turn.
    Overflowed(OverflowArmRun),
    /// The turn's requests were served.
    Served(BoundaryRun),
    /// The driver answered.
    Follow(FollowUp),
    /// The continuation was told and accepted, or the prompt was aborted.
    Continued { accepted: bool },
}

/// How the turns of a prompt end.
#[derive(Debug, PartialEq, Eq)]
pub enum LoopEnd {
    /// An event was refused: nothing more is said.
    Silent,
    /// The prompt is done.
    Done(Result<(), String>),
    /// The pending requests are dropped, then the prompt is done.
    DropRequestsThenDone(Result<(), String>),
    /// The row is told, then the prompt is done.
    RowThenDone(Json),
}

/// What is done next for a prompt.
#[derive(Debug, PartialEq, Eq)]
pub enum LoopAction {
    LookAfterStaleOverflow,
    CheckThreshold,
    RunTurn { admission: TurnAdmission, prompt: String, with_images: bool },
    RunOverflowArm,
    ServeRequests,
    AskDriver,
    TellContinuation { text: String },
    Finish(LoopEnd),
}

/// The mathematical stage behind a [`LoopStage`].
#[verifier::ext_equal]
pub enum StageView {
    PreOverflow,
    PreCompaction,
    Turn,
    Overflow { error: Seq<char> },
    Boundary,
    PostCompaction,
    Driver,
    Continuation { text: Seq<char> },
    Finished,
}

/// The mathematical loop behind a [`TurnLoop`].
#[verifier::ext_equal]
pub struct LoopView {
    pub stage: StageView,
    pub prompt: Seq<char>,
    pub first: bool,
    pub overflow_retry: bool,
}

impl View for LoopStage {
    type V = StageView;

    open spec fn view(&self) -> StageView {
        match self {
            LoopStage::PreOverflow => StageView::PreOverflow,
            LoopStage::PreCompaction => StageView::PreCompaction,
            LoopStage::Turn => StageView::Turn,
            LoopStage::Overflow { error } => StageView::Overflow { error: error@ },
            LoopStage::Boundary => StageView::Boundary,
            LoopStage::PostCompaction => StageView::PostCompaction,
            LoopStage::Driver => StageView::Driver,
            LoopStage::Continuation { text } => StageView::Continuation { text: text@ },
            LoopStage::Finished => StageView::Finished,
        }
    }
}

impl View for TurnLoop {
    type V = LoopView;

    open spec fn view(&self) -> LoopView {
        LoopView {
            stage: self.stage@,
            prompt: self.prompt@,
            first: self.first,
            overflow_retry: self.overflow_retry,
        }
    }
}

/// The mathematical event behind a [`LoopEvent`].
#[verifier::ext_equal]
pub enum LoopEventView {
    PreOverflow { accepted: bool },
    Compacted(AutoCompactionRun),
    Turned(TurnView),
    Overflowed(OverflowArmRun),
    Served(BoundaryRun),
    Inactive,
    Continue { text: Seq<char> },
    Stop { row: JsonView },
    Continued { accepted: bool },
}

impl View for LoopEvent {
    type V = LoopEventView;

    open spec fn view(&self) -> LoopEventView {
        match self {
            LoopEvent::PreOverflow { accepted } => LoopEventView::PreOverflow {
                accepted: *accepted,
            },
            LoopEvent::Compacted(run) => LoopEventView::Compacted(*run),
            LoopEvent::Turned(result) => LoopEventView::Turned(result@),
            LoopEvent::Overflowed(run) => LoopEventView::Overflowed(*run),
            LoopEvent::Served(run) => LoopEventView::Served(*run),
            LoopEvent::Follow(FollowUp::Inactive) => LoopEventView::Inactive,
            LoopEvent::Follow(FollowUp::Continue { text }) => LoopEventView::Continue {
                text: text@,
            },
            LoopEvent::Follow(FollowUp::Stop { row }) => LoopEventView::Stop { row: row@ },
            LoopEvent::Continued { accepted } => LoopEventView::Continued { accepted: *accepted },
        }
    }
}

/// The mathematical action behind a [`LoopAction`].
#[verifier::ext_equal]
pub enum ActionView {
    LookAfterStaleOverflow,
    CheckThreshold,
    RunTurn { admission: TurnAdmission, prompt: Seq<char>, with_images: bool },
    RunOverflowArm,
    ServeRequests,
    AskDriver,
    TellContinuation { text: Seq<char> },
    Silent,
    Done(Option<Seq<char>>),
    DropRequestsThenDone(Option<Seq<char>>),
    RowThenDone(JsonView),
}

impl View for LoopAction {
    type V = ActionView;

    open spec fn view(&self) -> ActionView {
        match self {
            LoopAction::LookAfterStaleOverflow => ActionView::LookAfterStaleOverflow,
            LoopAction::CheckThreshold => ActionView::CheckThreshold,
            LoopAction::RunTurn { admission, prompt, with_images } => ActionView::RunTurn {
                admission: *admission,
                prompt: prompt@,
                with_images: *with_images,
            },
            LoopAction::RunOverflowArm => ActionView::RunOverflowArm,
            LoopAction::ServeRequests => ActionView::ServeRequests,
            LoopAction::AskDriver => ActionView::AskDriver,
            LoopAction::TellContinuation { text } => ActionView::TellContinuation { text: text@ },
            LoopAction::Finish(LoopEnd::Silent) => ActionView::Silent,
            LoopAction::Finish(LoopEnd::Done(result)) => ActionView::Done(done_error(*result)),
            LoopAction::Finish(LoopEnd::DropRequestsThenDone(result)) => ActionView::DropRequestsThenDone(
                done_error(*result),
            ),
            LoopAction::Finish(LoopEnd::RowThenDone(row)) => ActionView::RowThenDone(row@),
        }
    }
}

/// The error a prompt is done with, where it is.
pub open spec fn done_error(result: Result<(), String>) -> Option<Seq<char>> {
    match result {
        Ok(_) => None,
        Err(error) => Some(error@),
    }
}

/// Whether an event is what a stage waits for.
pub open spec fn expected(stage: StageView, event: LoopEventView) -> bool {
    match stage {
        StageView::PreOverflow => event is PreOverflow,
        StageView::PreCompaction | StageView::PostCompaction => event is Compacted,
        StageView::Turn => event is Turned,
        StageView::Overflow { .. } => event is Overflowed,
        StageView::Boundary => event is Served,
        StageView::Driver => event is Inactive || event is Continue || event is Stop,
        StageView::Continuation { .. } => event is Continued,
        StageView::Finished => false,
    }
}

/// The next state and action of a prompt's turns.
pub open spec fn loop_step(state: LoopView, event: LoopEventView) -> (LoopView, ActionView) {
    let finished = LoopView { stage: StageView::Finished, ..state };
    match (state.stage, event) {
        (StageView::PreOverflow, LoopEventView::PreOverflow { accepted }) => if accepted {
            (LoopView { stage: StageView::PreCompaction, ..state }, ActionView::CheckThreshold)
        } else {
            (finished, ActionView::Silent)
        },
        (StageView::PreCompaction, LoopEventView::Compacted(run)) => if run
            == AutoCompactionRun::Cancelled {
            (finished, ActionView::Silent)
        } else {
            (
                LoopView {
                    stage: StageView::Turn,
                    first: false,
                    overflow_retry: false,
                    ..state
                },
                ActionView::RunTurn {
                    admission: if state.overflow_retry {
                        TurnAdmission::Continue
                    } else {
                        TurnAdmission::FreshPrompt
                    },
                    prompt: state.prompt,
                    with_images: state.first,
                },
            )
        },
        (StageView::Turn, LoopEventView::Turned(result)) => match result {
            TurnView::Message => (
                LoopView { stage: StageView::Boundary, ..state },
                ActionView::ServeRequests,
            ),
            TurnView::Aborted => (
                finished,
                ActionView::DropRequestsThenDone(Some("No response produced."@)),
            ),
            TurnView::Error { error, answered } => if answered {
                (
                    LoopView { stage: StageView::Overflow { error }, ..state },
                    ActionView::RunOverflowArm,
                )
            } else {
                (finished, ActionView::Done(Some(error)))
            },
        },
        (StageView::Overflow { error }, LoopEventView::Overflowed(run)) => match run {
            OverflowArmRun::RetryTurn => (
                LoopView { stage: StageView::PreOverflow, overflow_retry: true, ..state },
                ActionView::LookAfterStaleOverflow,
            ),
            OverflowArmRun::Cancelled => (finished, ActionView::Silent),
            _ => (finished, ActionView::Done(Some(error))),
        },
        (StageView::Boundary, LoopEventView::Served(run)) => match run {
            BoundaryRun::Cancelled => (finished, ActionView::Silent),
            BoundaryRun::StoppedForCompaction => (finished, ActionView::Done(None)),
            BoundaryRun::Proceed => (
                LoopView { stage: StageView::PostCompaction, ..state },
                ActionView::CheckThreshold,
            ),
        },
        (StageView::PostCompaction, LoopEventView::Compacted(run)) => if run
            == AutoCompactionRun::Cancelled {
            (finished, ActionView::Silent)
        } else {
            (LoopView { stage: StageView::Driver, ..state }, ActionView::AskDriver)
        },
        (StageView::Driver, LoopEventView::Inactive) => (finished, ActionView::Done(None)),
        (StageView::Driver, LoopEventView::Continue { text }) => (
            LoopView { stage: StageView::Continuation { text }, ..state },
            ActionView::TellContinuation { text },
        ),
        (StageView::Driver, LoopEventView::Stop { row }) => (
            finished,
            ActionView::RowThenDone(row),
        ),
        (StageView::Continuation { text }, LoopEventView::Continued { accepted }) => if accepted {
            (
                LoopView { stage: StageView::PreOverflow, prompt: text, ..state },
                ActionView::LookAfterStaleOverflow,
            )
        } else {
            (finished, ActionView::Done(Some("No response produced."@)))
        },
        _ => (finished, ActionView::Silent),
    }
}

/// Whether an action ends a prompt.
pub open spec fn ends(action: ActionView) -> bool {
    match action {
        ActionView::Silent
        | ActionView::Done(_)
        | ActionView::DropRequestsThenDone(_)
        | ActionView::RowThenDone(_) => true,
        _ => false,
    }
}

/// An event that a stage does not wait for ends the prompt in silence, whatever
/// the event brings, and nothing follows the end of a prompt.
pub proof fn law_unexpected_events_end_in_silence(state: LoopView, event: LoopEventView)
    ensures
        !expected(state.stage, event) ==> loop_step(state, event) == (
            LoopView { stage: StageView::Finished, ..state },
            ActionView::Silent,
        ),
        state.stage is Finished ==> loop_step(state, event) == (state, ActionView::Silent),
{
}

impl TurnLoop {
    /// Begin the turns of a prompt: a stale overflow is looked after first.
    pub fn begin(prompt: &str) -> (r: (TurnLoop, LoopAction))
        ensures
            r.0@ == (LoopView {
                stage: StageView::PreOverflow,
                prompt: prompt@,
                first: true,
                overflow_retry: false,
            }),
            r.1@ == ActionView::LookAfterStaleOverflow,
    {
        (
            TurnLoop {
                stage: LoopStage::PreOverflow,
                prompt: prompt.to_owned(),
                first: true,
                overflow_retry: false,
            },
            LoopAction::LookAfterStaleOverflow,
        )
    }

    fn finish(&mut self, end: LoopEnd) -> (r: LoopAction)
        ensures
            final(self)@ == (LoopView { stage: StageView::Finished, ..old(self)@ }),
            r == LoopAction::Finish(end),
    {
        self.stage = LoopStage::Finished;
        LoopAction::Finish(end)
    }

    /// Take what happened, and say what is done next. An event that the stage
    /// does not wait for ends the prompt in silence.
    pub fn run_turns(&mut self, event: LoopEvent) -> (r: LoopAction)
        ensures
            (final(self)@, r@) == loop_step(old(self)@, event@),
    {
        match (&self.stage, event) {
            (LoopStage::PreOverflow, LoopEvent::PreOverflow { accepted }) => {
                if accepted {
                    self.stage = LoopStage::PreCompaction;
                    LoopAction::CheckThreshold
                } else {
                    self.finish(LoopEnd::Silent)
                }
            },
            (LoopStage::PreCompaction, LoopEvent::Compacted(run)) => {
                if run == AutoCompactionRun::Cancelled {
                    return self.finish(LoopEnd::Silent);
                }
                let admission = if self.overflow_retry {
                    TurnAdmission::Continue
                } else {
                    TurnAdmission::FreshPrompt
                };
                let with_images = self.first;
                self.stage = LoopStage::Turn;
                self.first = false;
                self.overflow_retry = false;
                LoopAction::RunTurn { admission, prompt: self.prompt.clone(), with_images }
            },
            (LoopStage::Turn, LoopEvent::Turned(result)) => match result {
                TurnResult::Message => {
                    self.stage = LoopStage::Boundary;
                    LoopAction::ServeRequests
                },
                TurnResult::Aborted => self.finish(
                    LoopEnd::DropRequestsThenDone(Err("No response produced.".to_owned())),
                ),
                TurnResult::Error { error, answered } => {
                    if answered {
                        self.stage = LoopStage::Overflow { error };
                        LoopAction::RunOverflowArm
                    } else {
                        self.finish(LoopEnd::Done(Err(error)))
                    }
                },
            },
            (LoopStage::Overflow { error }, LoopEvent::Overflowed(run)) => match run {
                OverflowArmRun::RetryTurn => {
                    self.stage = LoopStage::PreOverflow;
                    self.overflow_retry = true;
                    LoopAction::LookAfterStaleOverflow
                },
                OverflowArmRun::Cancelled => self.finish(LoopEnd::Silent),
                OverflowArmRun::NotApplicable | OverflowArmRun::Finished => {
                    let error = error.clone();
                    self.finish(LoopEnd::Done(Err(error)))
                },
            },
            (LoopStage::Boundary, LoopEvent::Served(run)) => match run {
                BoundaryRun::Cancelled => self.finish(LoopEnd::Silent),
                BoundaryRun::StoppedForCompaction => self.finish(LoopEnd::Done(Ok(()))),
                BoundaryRun::Proceed => {
                    self.stage = LoopStage::PostCompaction;
                    LoopAction::CheckThreshold
                },
            },
            (LoopStage::PostCompaction, LoopEvent::Compacted(run)) => {
                if run == AutoCompactionRun::Cancelled {
                    return self.finish(LoopEnd::Silent);
                }
                self.stage = LoopStage::Driver;
                LoopAction::AskDriver
            },
            (LoopStage::Driver, LoopEvent::Follow(follow)) => match follow {
                FollowUp::Inactive => self.finish(LoopEnd::Done(Ok(()))),
                FollowUp::Continue { text } => {
                    let told = text.clone();
                    self.stage = LoopStage::Continuation { text };
                    LoopAction::TellContinuation { text: told }
                },
                FollowUp::Stop { row } => self.finish(LoopEnd::RowThenDone(row)),
            },
            (LoopStage::Continuation { text }, LoopEvent::Continued { accepted }) => {
                if accepted {
                    let text = text.clone();
                    self.prompt = text;
                    self.stage = LoopStage::PreOverflow;
                    LoopAction::LookAfterStaleOverflow
                } else {
                    self.finish(LoopEnd::Done(Err("No response produced.".to_owned())))
                }
            },
            _ => self.finish(LoopEnd::Silent),
        }
    }
}

/// The loop after a run of events, from the start of a prompt.
pub open spec fn loop_after(prompt: Seq<char>, events: Seq<LoopEventView>) -> LoopView
    decreases events.len(),
{
    if events.len() == 0 {
        LoopView { stage: StageView::PreOverflow, prompt, first: true, overflow_retry: false }
    } else {
        loop_step(loop_after(prompt, events.drop_last()), events.last()).0
    }
}

/// A prompt ends once: an action ends it exactly when its stage is the last
/// one, and from there on every further event is taken in silence.
pub proof fn law_prompts_end_once(state: LoopView, event: LoopEventView)
    ensures
        ends(loop_step(state, event).1) <==> loop_step(state, event).0.stage == StageView::Finished,
        state.stage == StageView::Finished ==> loop_step(state, event).0.stage
            == StageView::Finished && loop_step(state, event).1 == ActionView::Silent,
{
}

/// Images ride the first turn of a prompt only: a turn is run with them exactly
/// where no turn was run before.
pub proof fn law_images_ride_the_first_turn(state: LoopView, event: LoopEventView)
    ensures
        loop_step(state, event).1 matches ActionView::RunTurn { with_images, .. } ==> with_images
            == state.first && !loop_step(state, event).0.first,
        !(loop_step(state, event).1 is RunTurn) ==> loop_step(state, event).0.first == state.first,
        loop_step(state, event).0.first ==> state.first,
{
}

/// A turn goes on without a new user message only right after the overflow arm
/// compacted the context for it: a retry is asked for by that arm alone, and
/// the next turn uses it up.
pub proof fn law_only_overflows_continue(state: LoopView, event: LoopEventView)
    ensures
        loop_step(state, event).1 matches ActionView::RunTurn { admission, .. } ==> (admission
            == TurnAdmission::Continue <==> state.overflow_retry) && !loop_step(
            state,
            event,
        ).0.overflow_retry,
        loop_step(state, event).0.overflow_retry && !state.overflow_retry ==> event
            == LoopEventView::Overflowed(OverflowArmRun::RetryTurn),
{
}

/// Every accepted continuation becomes the prompt of the next turn, and no
/// other event changes the prompt.
pub proof fn law_continuations_become_the_prompt(state: LoopView, event: LoopEventView)
    ensures
        loop_step(state, event).0.prompt != state.prompt ==> event == (LoopEventView::Continued {
            accepted: true,
        }) && state.stage == (StageView::Continuation { text: loop_step(state, event).0.prompt }),
{
}

/// Whether the end of a turn makes the overflow arm ready for another attempt:
/// a turn that settled or was aborted does, and one that failed does not.
pub open spec fn readies_overflow(result: TurnView) -> bool {
    !(result is Error)
}

/// Whether the end of a turn makes the overflow arm ready for another attempt.
pub fn resets_overflow_recovery(result: &TurnResult) -> (r: bool)
    ensures
        r == readies_overflow(result@),
{
    match result {
        TurnResult::Message => true,
        TurnResult::Aborted => true,
        TurnResult::Error { .. } => false,
    }
}

// ---------------------------------------------------------------------------
// Other runs
// ---------------------------------------------------------------------------

/// What came of a compaction of the session.
#[derive(Debug, PartialEq, Eq)]
pub enum CompactionCall {
    /// The model or the session could not be had.
    Unavailable(String),
    /// The abort came first, or the error is one.
    Aborted,
    Failed(String),
    Skipped(String),
    Ran { summary: String, first_kept_entry_id: String, tokens_before: u64, usage: Option<Json> },
}

/// The outcome of a compaction of the session.
pub open spec fn compaction_end(call: CompactionCall) -> OutcomeView {
    match call {
        CompactionCall::Unavailable(error) => OutcomeView::Failed { error: error@ },
        CompactionCall::Aborted => OutcomeView::Aborted,
        CompactionCall::Failed(error) => OutcomeView::Failed { error: error@ },
        CompactionCall::Skipped(message) => OutcomeView::Skipped { message: message@ },
        CompactionCall::Ran {
            summary,
            first_kept_entry_id,
            tokens_before,
            usage,
        } => OutcomeView::Compacted {
            result: result_json(summary@, first_kept_entry_id@, tokens_before),
            usage: opt_view(usage),
        },
    }
}

/// The outcome of a compaction of the session.
pub fn run_compaction(call: CompactionCall) -> (r: CompactionOutcome)
    ensures
        r@ == compaction_end(call),
{
    match call {
        CompactionCall::Unavailable(error) => CompactionOutcome::Failed { error },
        CompactionCall::Aborted => CompactionOutcome::Aborted,
        CompactionCall::Failed(error) => CompactionOutcome::Failed { error },
        CompactionCall::Skipped(message) => CompactionOutcome::Skipped { message },
        CompactionCall::Ran { summary, first_kept_entry_id, tokens_before, usage } => {
            let result = compaction_result(
                summary.as_str(),
                first_kept_entry_id.as_str(),
                tokens_before,
            );
            CompactionOutcome::Compacted { run: CompactionRun { result, usage } }
        },
    }
}

/// What came of the summary of a branch that is left.
#[derive(Debug, PartialEq, Eq)]
pub struct BranchSummaryResult {
    pub aborted: bool,
    pub error: Option<String>,
    pub summary: Option<String>,
    pub usage: Option<Json>,
    pub read_files: Json,
    pub modified_files: Json,
}

/// How the summary of a branch ended.
#[derive(Debug, PartialEq, Eq)]
pub enum BranchSummaryOutcome {
    Complete { summary: String, usage: Option<Json>, details: Option<Json> },
    Aborted,
    Failed { error: String },
}

/// The mathematical outcome behind a [`BranchSummaryOutcome`].
#[verifier::ext_equal]
pub enum BranchView {
    Complete { summary: Seq<char>, usage: Option<JsonView>, details: Option<JsonView> },
    Aborted,
    Failed { error: Seq<char> },
}

impl View for BranchSummaryOutcome {
    type V = BranchView;

    open spec fn view(&self) -> BranchView {
        match self {
            BranchSummaryOutcome::Complete { summary, usage, details } => BranchView::Complete {
                summary: summary@,
                usage: opt_view(*usage),
                details: opt_view(*details),
            },
            BranchSummaryOutcome::Aborted => BranchView::Aborted,
            BranchSummaryOutcome::Failed { error } => BranchView::Failed { error: error@ },
        }
    }
}

/// How the summary of a branch ended: an abort first, then an error, then the
/// summary with the files it names.
pub open spec fn branch_outcome(result: Option<BranchSummaryResult>) -> BranchView {
    match result {
        None => BranchView::Aborted,
        Some(result) => if result.aborted {
            BranchView::Aborted
        } else if result.error is Some {
            BranchView::Failed { error: result.error->0@ }
        } else {
            BranchView::Complete {
                summary: match result.summary {
                    Some(summary) => summary@,
                    None => "No summary generated"@,
                },
                usage: opt_view(result.usage),
                details: Some(
                    JsonView::object().field("readFiles"@, result.read_files@).field(
                        "modifiedFiles"@,
                        result.modified_files@,
                    ),
                ),
            }
        },
    }
}

/// How the summary of a branch ended; the result is none where an abort came
/// first.
pub fn run_branch_summary(result: Option<BranchSummaryResult>) -> (r: BranchSummaryOutcome)
    ensures
        r@ == branch_outcome(result),
{
    let result = match result {
        Some(result) => result,
        None => {
            return BranchSummaryOutcome::Aborted;
        },
    };
    if result.aborted {
        return BranchSummaryOutcome::Aborted;
    }
    match result.error {
        Some(error) => {
            return BranchSummaryOutcome::Failed { error };
        },
        None => {},
    }
    let summary = match result.summary {
        Some(summary) => summary,
        None => "No summary generated".to_owned(),
    };
    let details = Json::object().field("readFiles", result.read_files).field(
        "modifiedFiles",
        result.modified_files,
    );
    BranchSummaryOutcome::Complete { summary, usage: result.usage, details: Some(details) }
}

/// How a side question of the session ended.
#[derive(Debug, PartialEq, Eq)]
pub enum SideQuestionCall {
    /// The model or the session could not be had.
    Unavailable(String),
    Complete { answer: String },
    Cancelled { answer: String },
    Error { answer: String, message: Option<String> },
}

/// The outcome of a side question of the session.
pub open spec fn side_call_end(call: SideQuestionCall) -> SideOutcomeView {
    match call {
        SideQuestionCall::Unavailable(error) => SideOutcomeView::Failed {
            answer: Seq::empty(),
            error: error@,
        },
        SideQuestionCall::Complete { answer } => SideOutcomeView::Complete { answer: answer@ },
        SideQuestionCall::Cancelled { answer } => SideOutcomeView::Aborted { answer: answer@ },
        SideQuestionCall::Error { answer, message } => SideOutcomeView::Failed {
            answer: answer@,
            error: match message {
                Some(message) => message@,
                None => "Side question failed"@,
            },
        },
    }
}

/// The outcome of a side question of the session.
pub fn side_question_outcome(call: SideQuestionCall) -> (r: SideQuestionOutcome)
    ensures
        r@ == side_call_end(call),
{
    match call {
        SideQuestionCall::Unavailable(error) => {
            let answer = String::new();
            SideQuestionOutcome::Failed { answer, error }
        },
        SideQuestionCall::Complete { answer } => SideQuestionOutcome::Complete { answer },
        SideQuestionCall::Cancelled { answer } => SideQuestionOutcome::Aborted { answer },
        SideQuestionCall::Error { answer, message } => SideQuestionOutcome::Failed {
            answer,
            error: match message {
                Some(message) => message,
                None => "Side question failed".to_owned(),
            },
        },
    }
}

/// What the engine reports of its model.
pub open spec fn metadata_json(model: ModelRef, name: Seq<char>, reasoning: bool) -> JsonView {
    JsonView::object().field("id"@, JsonView::Str(model.id@)).field(
        "name"@,
        JsonView::Str(name),
    ).field("provider"@, JsonView::Str(model.provider@)).field(
        "reasoning"@,
        JsonView::Bool(reasoning),
    )
}

/// What the engine reports of its model.
pub fn model_metadata(model: &ModelRef, name: &str, reasoning: bool) -> (r: Json)
    ensures
        r@ == metadata_json(*model, name@, reasoning),
{
    Json::object().field("id", Json::string(model.id.as_str())).field("name", Json::string(name)).field(
        "provider",
        Json::string(model.provider.as_str()),
    ).field("reasoning", Json::Bool(reasoning))
}

/// A tool of a session.
#[derive(Debug, PartialEq, Eq)]
pub struct ToolInfo {
    pub name: String,
    pub label: String,
    pub description: String,
    pub parameters: Json,
}

/// A tool as it is shown.
pub open spec fn tool_json(tool: ToolInfo) -> JsonView {
    JsonView::object().field("name"@, JsonView::Str(tool.name@)).field(
        "label"@,
        JsonView::Str(tool.label@),
    ).field("description"@, JsonView::Str(tool.description@)).field(
        "parameters"@,
        tool.parameters@,
    )
}

/// The first tool of a name, as it is shown.
pub open spec fn tool_named(tools: Seq<ToolInfo>, name: Seq<char>) -> Option<JsonView>
    decreases tools.len(),
{
    if tools.len() == 0 {
        None
    } else if tools[0].name@ == name {
        Some(tool_json(tools[0]))
    } else {
        tool_named(tools.drop_first(), name)
    }
}

/// The tool of a name, as it is shown.
pub fn tool_definition(tools: &Vec<ToolInfo>, name: &str) -> (r: Option<Json>)
    ensures
        opt_view(r) == tool_named(tools@, name@),
{
    let mut i: usize = 0;
    assert(tools@.skip(0) =~= tools@);
    while i < tools.len()
        invariant
            i <= tools@.len(),
            tool_named(tools@, name@) == tool_named(tools@.skip(i as int), name@),
        decreases tools@.len() - i,
    {
        assert(tools@.skip(i as int)[0] == tools@[i as int]);
        assert(tools@.skip(i as int).drop_first() =~= tools@.skip(i + 1));
        let tool = &tools[i];
        if same_text(tool.name.as_str(), name) {
            return Some(
                Json::object().field("name", Json::string(tool.name.as_str())).field(
                    "label",
                    Json::string(tool.label.as_str()),
                ).field("description", Json::string(tool.description.as_str())).field(
                    "parameters",
                    tool.parameters.duplicate(),
                ),
            );
        }
        i = i + 1;
    }
    None
}

// ---------------------------------------------------------------------------
// The engine
// ---------------------------------------------------------------------------

/// What an engine is made with.
#[derive(Debug, PartialEq, Eq)]
pub struct AgentEngineConfig {
    pub cwd: String,
    pub agent_dir: String,
    pub provider: Option<String>,
    pub model: Option<String>,
    pub api_key: Option<String>,
    pub thinking: Option<String>,
    pub session_dir: Option<String>,
    pub session_file: Option<String>,
    pub faux_script: Option<String>,
    pub supervisor_link: Option<SupervisorLinkConfig>,
    pub telemetry_disabled: Option<bool>,
}

/// What an engine holds between the calls on it.
#[derive(Debug, PartialEq, Eq)]
pub struct AgentSessionEngine {
    pub config: AgentEngineConfig,
    pub selection: EngineModelSelection,
    /// The thinking level in force, once it was worked out.
    pub effective_thinking: Option<String>,
    pub session_file: Option<String>,
    pub own_summary: Option<Json>,
    /// The session's children; none for a session without a supervisor.
    pub children: Option<SupervisorChildSessions>,
    pub rlm_depth: u32,
    pub rlm_max_depth_source: DepthSource,
    /// A depth bound that was set before the session was built.
    pub pending_max_depth: Option<u64>,
    /// A branch that was moved to before the session was built.
    pub pending_branch: Option<Vec<Json>>,
    pub published_goal: PublishedGoal,
}

impl AgentSessionEngine {
    /// Whether an engine is a new one with its configuration.
    pub open spec fn is_new(
        engine: Self,
        config: AgentEngineConfig,
        env_provider: Option<Seq<char>>,
        env_model: Option<Seq<char>>,
    ) -> bool {
        &&& engine.config == config
        &&& engine.selection@ == first_selection(
            SelectionView {
                provider: opt_text(config.provider),
                model: opt_text(config.model),
                api_key: opt_text(config.api_key),
                thinking: opt_text(config.thinking),
            },
            env_provider,
            env_model,
        )
        &&& engine.effective_thinking is None
        &&& opt_text(engine.session_file) == opt_text(config.session_file)
        &&& engine.own_summary is None
        &&& match engine.children {
            Some(children) => config.supervisor_link is Some && children.agent_dir@
                == config.agent_dir@ && children.parent_active_session_id@
                == config.supervisor_link->0.active_session_id@ && children.children@.len()
                == 0 && children.identity == (ParentIdentity {
                rlm_depth: 0,
                rlm_max_depth: DEFAULT_RLM_MAX_DEPTH,
                model: None,
                cwd: None,
                session_id: None,
                session_file: None,
                thinking: None,
                child_script: None,
            }),
            None => config.supervisor_link is None,
        }
        &&& engine.rlm_depth == 0
        &&& engine.rlm_max_depth_source == DepthSource::Default
        &&& engine.pending_max_depth is None
        &&& engine.pending_branch is None
        &&& engine.published_goal.state is None
    }

    /// An engine with its configuration: on the configured model where one is
    /// named, else on the environment's; with children where it has a
    /// supervisor; and with nothing built, published or parked.
    pub fn new(
        config: AgentEngineConfig,
        env_provider: Option<String>,
        env_model: Option<String>,
    ) -> (r: AgentSessionEngine)
        ensures
            Self::is_new(r, config, opt_text(env_provider), opt_text(env_model)),
    {
        let configured = EngineModelSelection {
            provider: copy_opt(&config.provider),
            model: copy_opt(&config.model),
            api_key: copy_opt(&config.api_key),
            thinking: copy_opt(&config.thinking),
        };
        let selection = initial_selection(configured, env_provider, env_model);
        let session_file = copy_opt(&config.session_file);
        let children = match &config.supervisor_link {
            Some(link) => Some(
                SupervisorChildSessions::new(
                    config.agent_dir.clone(),
                    link.active_session_id.clone(),
                ),
            ),
            None => None,
        };
        AgentSessionEngine {
            config,
            selection,
            effective_thinking: None,
            session_file,
            own_summary: None,
            children,
            rlm_depth: 0,
            rlm_max_depth_source: DepthSource::Default,
            pending_max_depth: None,
            pending_branch: None,
            published_goal: PublishedGoal { state: None },
        }
    }

    /// Whether an engine keeps its thinking level, or works it out.
    pub open spec fn keeps_level(
        before: Self,
        after: Self,
        in_force: Seq<char>,
        clamped: Option<Seq<char>>,
    ) -> bool {
        &&& in_force == (match before.effective_thinking {
            Some(level) => level@,
            None => level_in_force(clamped),
        })
        &&& opt_text(after.effective_thinking) == Some(in_force)
        &&& after == (AgentSessionEngine {
            effective_thinking: after.effective_thinking,
            ..before
        })
    }

    /// The thinking level in force: worked out once, out of what the model
    /// supports of the requested one, and kept.
    pub fn effective_thinking(&mut self, clamped: Option<&str>) -> (r: String)
        ensures
            Self::keeps_level(*old(self), *final(self), r@, opt_str(clamped)),
    {
        match &self.effective_thinking {
            Some(level) => {
                return level.clone();
            },
            None => {},
        }
        let level = match clamped {
            Some(level) => level.to_owned(),
            None => "off".to_owned(),
        };
        self.effective_thinking = Some(level.clone());
        level
    }

    /// Whether an engine merges a selection in.
    pub open spec fn merges(
        before: Self,
        after: Self,
        selection: SelectionView,
        clamped: Option<Seq<char>>,
    ) -> bool {
        &&& after.selection@ == merged(before.selection@, selection)
        &&& opt_text(after.effective_thinking) == Some(level_in_force(clamped))
        &&& after == (AgentSessionEngine {
            selection: after.selection,
            effective_thinking: after.effective_thinking,
            ..before
        })
    }

    /// Merge a selection in, and work the thinking level out anew.
    pub fn configure_model(&mut self, selection: EngineModelSelection, clamped: Option<&str>)
        ensures
            Self::merges(*old(self), *final(self), selection@, opt_str(clamped)),
    {
        merge_selection(&mut self.selection, selection);
        self.effective_thinking = None;
        let _ = self.effective_thinking(clamped);
    }

    /// The models a turn can fail over to, out of those that were found for its
    /// model: a scripted session has none.
    pub fn failover_candidates(&self, found: Vec<ModelRef>) -> (r: Vec<ModelRef>)
        ensures
            r@ == failover_models(self.config.faux_script is Some, found@),
    {
        if self.config.faux_script.is_some() {
            Vec::new()
        } else {
            found
        }
    }

    /// Go over to another model, where the selection resolves to one; the
    /// selection stays merged in where it does not.
    pub fn switch_model(
        &mut self,
        selection: EngineModelSelection,
        resolved: bool,
        clamped: Option<&str>,
    ) -> (r: bool)
        ensures
            r == resolved,
            Self::merges(*old(self), *final(self), selection@, opt_str(clamped)),
    {
        self.configure_model(selection, clamped);
        resolved
    }

    /// Whether an engine takes a thinking level, and the level that is in force then.
    pub open spec fn sets_level(
        before: Self,
        after: Self,
        in_force: Seq<char>,
        level: Seq<char>,
        clamped: Option<Seq<char>>,
    ) -> bool {
        &&& in_force == level_in_force(clamped)
        &&& after.selection@ == (SelectionView {
            thinking: Some(level),
            ..before.selection@
        })
        &&& opt_text(after.effective_thinking) == Some(in_force)
        &&& after == (AgentSessionEngine {
            selection: after.selection,
            effective_thinking: after.effective_thinking,
            ..before
        })
    }

    /// Ask for another thinking level, and tell the one that is in force then.
    pub fn switch_thinking_level(&mut self, level: String, clamped: Option<&str>) -> (r: String)
        ensures
            Self::sets_level(*old(self), *final(self), r@, level@, opt_str(clamped)),
    {
        let selection = EngineModelSelection {
            provider: None,
            model: None,
            api_key: None,
            thinking: Some(level),
        };
        self.configure_model(selection, clamped);
        self.effective_thinking(clamped)
    }

    /// Move the session to another file.
    pub fn set_session_file(&mut self, path: String)
        ensures
            *final(self) == (AgentSessionEngine { session_file: Some(path), ..*old(self) }),
    {
        self.session_file = Some(path);
    }

    /// Keep the session's summary.
    pub fn set_session_summary(&mut self, summary: Json)
        ensures
            *final(self) == (AgentSessionEngine { own_summary: Some(summary), ..*old(self) }),
    {
        self.own_summary = Some(summary);
    }

    /// Whether an engine takes up an identity, or refuses it.
    pub open spec fn takes_up(
        before: Self,
        after: Self,
        result: Result<(), String>,
        identity: RlmSessionIdentity,
        thinking_known: bool,
        chat: Option<u64>,
        global: Option<u64>,
        env: Option<Seq<char>>,
    ) -> bool {
        &&& after.rlm_depth == identity.rlm_depth
        &&& match result {
            Err(message) => identity.thinking is Some && !thinking_known && message@
                == "unknown thinking level \""@ + identity.thinking->0@ + "\""@
                && after == (AgentSessionEngine {
                rlm_depth: identity.rlm_depth,
                ..before
            }),
            Ok(_) => {
                let bound = depth_bound(
                    chat,
                    identity.rlm_max_depth,
                    global,
                    env_depth(env),
                );
                &&& identity.thinking is None || thinking_known
                &&& after.rlm_max_depth_source == bound.1
                &&& match after.children {
                    Some(children) => before.children is Some && children == (
                    SupervisorChildSessions {
                        identity: ParentIdentity {
                            rlm_depth: identity.rlm_depth,
                            rlm_max_depth: registry_depth(bound.0),
                            model: None,
                            cwd: identity.cwd,
                            session_id: identity.session_id,
                            session_file: identity.session_file,
                            thinking: identity.thinking,
                            child_script: None,
                        },
                        ..before.children->0
                    }),
                    None => before.children is None,
                }
                &&& after == (AgentSessionEngine {
                    rlm_depth: identity.rlm_depth,
                    rlm_max_depth_source: bound.1,
                    children: after.children,
                    ..before
                })
            },
        }
    }

    /// Take up the place of the session among its parents and children. A
    /// thinking level that is not known is refused.
    pub fn configure_rlm_identity(
        &mut self,
        identity: &RlmSessionIdentity,
        thinking_known: bool,
        chat: Option<u64>,
        global: Option<u64>,
        env: Option<&str>,
    ) -> (r: Result<(), String>)
        ensures
            Self::takes_up(
                *old(self),
                *final(self),
                r,
                *identity,
                thinking_known,
                chat,
                global,
                opt_str(env),
            ),
    {
        self.rlm_depth = identity.rlm_depth;
        match child_identity(identity, thinking_known, chat, global, env) {
            Ok((parent, source)) => {
                self.rlm_max_depth_source = source;
                match &mut self.children {
                    Some(children) => children.set_identity(parent),
                    None => {},
                }
                Ok(())
            },
            Err(message) => Err(message),
        }
    }

    /// What is reported of the depth bound: the one that children are held to,
    /// else the default one.
    pub fn rlm_max_depth_status(&self) -> (r: Json)
        ensures
            r@ == depth_status(
                match self.children {
                    Some(children) => children.identity.rlm_max_depth,
                    None => DEFAULT_RLM_MAX_DEPTH,
                },
                self.rlm_max_depth_source,
            ),
    {
        let max_depth: u32 = match &self.children {
            Some(children) => children.identity.rlm_max_depth,
            None => DEFAULT_RLM_MAX_DEPTH,
        };
        max_depth_status(max_depth, self.rlm_max_depth_source)
    }

    /// Whether an engine takes a depth bound, and answers with it and its entry.
    pub open spec fn sets_depth(
        before: Self,
        after: Self,
        answer: JsonView,
        entry: Option<JsonView>,
        max_depth: u64,
        global: bool,
        global_error: Option<Seq<char>>,
        built: bool,
    ) -> bool {
        &&& answer == depth_answer(max_depth, global, global_error)
        &&& entry == if built {
            Some(depth_entry(max_depth))
        } else {
            None
        }
        &&& after.pending_max_depth == if built {
            before.pending_max_depth
        } else {
            Some(max_depth)
        }
        &&& match after.children {
            Some(children) => before.children is Some && children == (
            SupervisorChildSessions {
                identity: ParentIdentity {
                    rlm_max_depth: registry_depth(max_depth),
                    ..before.children->0.identity
                },
                ..before.children->0
            }),
            None => before.children is None,
        }
        &&& after == (AgentSessionEngine {
            rlm_max_depth_source: DepthSource::Chat,
            pending_max_depth: after.pending_max_depth,
            children: after.children,
            ..before
        })
    }

    /// Set the depth bound: children are held to it from now on, it is the
    /// session's own, and its entry is given back for a session that is built
    /// and kept for one that is not. The error is that of the global setting.
    pub fn set_rlm_max_depth(
        &mut self,
        max_depth: u64,
        global: bool,
        global_error: Option<&str>,
        built: bool,
    ) -> (r: (Json, Option<Json>))
        ensures
            Self::sets_depth(
                *old(self),
                *final(self),
                r.0@,
                opt_view(r.1),
                max_depth,
                global,
                opt_str(global_error),
                built,
            ),
    {
        match &mut self.children {
            Some(children) => children.set_rlm_max_depth(child_depth_bound(max_depth)),
            None => {},
        }
        self.rlm_max_depth_source = DepthSource::Chat;
        let mut entry: Option<Json> = None;
        if built {
            entry = Some(max_depth_entry(max_depth));
        } else {
            self.pending_max_depth = Some(max_depth);
        }
        (max_depth_answer(max_depth, global, global_error), entry)
    }

    /// Whether an engine gives its parked depth bound up, as an entry.
    pub open spec fn gives_up_depth(before: Self, after: Self, entry: Option<JsonView>) -> bool {
        &&& entry == (match before.pending_max_depth {
            Some(max_depth) => Some(depth_entry(max_depth)),
            None => None,
        })
        &&& after == (AgentSessionEngine { pending_max_depth: None, ..before })
    }

    /// Give the parked depth bound's entry to the session that was built, once.
    pub fn flush_pending_max_depth(&mut self) -> (r: Option<Json>)
        ensures
            Self::gives_up_depth(*old(self), *final(self), opt_view(r)),
    {
        let pending = self.pending_max_depth;
        self.pending_max_depth = None;
        match pending {
            Some(max_depth) => Some(max_depth_entry(max_depth)),
            None => None,
        }
    }

    /// Whether an engine moves to a branch, or parks it.
    pub open spec fn moves_to(
        before: Self,
        after: Self,
        taken: Option<Vec<Json>>,
        branch: Vec<Json>,
        built: bool,
    ) -> bool {
        &&& built ==> taken == Some(branch) && after == before
        &&& !built ==> taken is None && after == (AgentSessionEngine {
            pending_branch: Some(branch),
            ..before
        })
    }

    /// Move the session to a branch: a session that is built takes it up at
    /// once, and one that is not when it is built.
    pub fn rebuild_session_context(&mut self, branch: Vec<Json>, built: bool) -> (r: Option<
        Vec<Json>,
    >)
        ensures
            Self::moves_to(*old(self), *final(self), r, branch, built),
    {
        if built {
            Some(branch)
        } else {
            self.pending_branch = Some(branch);
            None
        }
    }

    /// Give the parked branch to the session that was built, once.
    pub fn take_pending_branch(&mut self) -> (r: Option<Vec<Json>>)
        ensures
            r == old(self).pending_branch,
            *final(self) == (AgentSessionEngine { pending_branch: None, ..*old(self) }),
    {
        self.pending_branch.take()
    }

    /// The goal as it is reported.
    pub open spec fn reported_goal(
        published: Option<JsonView>,
        current: Option<JsonView>,
        empty: JsonView,
    ) -> JsonView {
        match current {
            Some(goal) => goal,
            None => match published {
                Some(goal) => goal,
                None => empty,
            },
        }
    }

    /// The goal as it is reported: its current state, else the one that was last
    /// told, else the empty one.
    pub fn goal_state_value(&self, current: Option<Json>, empty: Json) -> (r: Json)
        ensures
            r@ == Self::reported_goal(
                opt_view(self.published_goal.state),
                opt_view(current),
                empty@,
            ),
    {
        match current {
            Some(goal) => goal,
            None => match &self.published_goal.state {
                Some(goal) => goal.duplicate(),
                None => empty,
            },
        }
    }

    /// The event for the goal's current state, where it is told.
    pub fn goal_update_if_changed(&mut self, current: Option<(Json, bool)>) -> (r: Option<
        EngineEvent,
    >)
        ensures
            (opt_view(final(self).published_goal.state), crate::engine::opt_event(r)) == goal_step(
                opt_view(old(self).published_goal.state),
                match current {
                    Some((goal, idle)) => Some((goal@, idle)),
                    None => None,
                },
            ),
            *final(self) == (AgentSessionEngine {
                published_goal: final(self).published_goal,
                ..*old(self)
            }),
    {
        goal_update(&mut self.published_goal, current)
    }
}

} // verus!
