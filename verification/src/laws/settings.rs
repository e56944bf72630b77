//! Laws of a session's model, depth bound, commands and resources.
use vstd::prelude::*;

use crate::agent_engine::{
    artifact_json, artifact_key, branch_outcome, commands_json, context_resource, depth_answer,
    depth_bound, depth_entry, depth_status, extension_json, first_selection, forward_slashes,
    is_child_identity, is_prompt_start, last_recorded_depth, level_in_force, logical_path, merged,
    metadata_json, recorded_depth, registry_depth, requested_level, resources_json, row_of_prompt,
    skill_json, skill_resource, template_json, template_resource, tool_json, tool_named,
    user_message, AgentEngineConfig, AgentSessionEngine, BranchSummaryResult, BranchView,
    DepthSource, ExtensionCommand, ImageContent, ModelRef, PromptStart, PromptTemplate,
    RlmSessionIdentity, SelectionView, Skill, ToolInfo,
};
use crate::engine::EventView;
use crate::json::{group_members, opt_view, Json, JsonView};
use crate::paths::{first_chars, hex_of};
use crate::rlm_children::{DEFAULT_RLM_MAX_DEPTH, ParentIdentity};
use crate::session_commands::session_command;
use crate::text::opt_text;

verus! {

/// A configured model is never replaced by the environment's: its selection is
/// taken whole. Without one the model is the environment's, and a key that was
/// configured for another model does not go with it.
pub proof fn law_configured_models_win(
    config: SelectionView,
    provider: Option<Seq<char>>,
    model: Option<Seq<char>>,
)
    ensures
        ({
            let first = first_selection(config, provider, model);
            let named = config.provider is Some || config.model is Some;
            &&& first.thinking == config.thinking
            &&& named ==> first.provider == config.provider && first.model == config.model
                && first.api_key == config.api_key
            &&& !named ==> first.provider == provider && first.model == model && first.api_key
                is None
        }),
{
}

/// What a later selection names is in force, and what it leaves out stays.
pub proof fn law_later_selections_win(current: SelectionView, new: SelectionView)
    ensures
        new.provider is Some ==> merged(current, new).provider == new.provider,
        new.provider is None ==> merged(current, new).provider == current.provider,
        new.model is Some ==> merged(current, new).model == new.model,
        new.model is None ==> merged(current, new).model == current.model,
        new.api_key is Some ==> merged(current, new).api_key == new.api_key,
        new.api_key is None ==> merged(current, new).api_key == current.api_key,
        new.thinking is Some ==> merged(current, new).thinking == new.thinking,
        new.thinking is None ==> merged(current, new).thinking == current.thinking,
{
}

/// A thinking level that was asked for is never replaced by a setting, nor one of
/// the settings by the medium one; and the level in force is the one that the
/// model supports, and off only where no model could be resolved.
pub proof fn law_asked_levels_win(level: Seq<char>, other: Option<Seq<char>>)
    ensures
        requested_level(Some(level), other) == level,
        requested_level(None, Some(level)) == level,
        requested_level(None, None) == "medium"@,
        level_in_force(Some(level)) == level,
        level_in_force(None) == "off"@,
{
}

/// The depth bound is the one of its source, and no nearer source has one.
pub proof fn law_the_nearest_bound_holds(
    chat: Option<u64>,
    inherited: Option<u32>,
    global: Option<u64>,
    env: Option<u64>,
)
    ensures
        ({
            let (depth, source) = depth_bound(chat, inherited, global, env);
            match source {
                DepthSource::Chat => chat == Some(depth),
                DepthSource::Inherited => chat is None && inherited is Some && depth
                    == inherited->0,
                DepthSource::Global => chat is None && inherited is None && global == Some(depth),
                DepthSource::Env => chat is None && inherited is None && global is None && env
                    == Some(depth) && depth >= 1,
                DepthSource::Default => chat is None && inherited is None && global is None && (
                env is None || env->0 == 0) && depth == DEFAULT_RLM_MAX_DEPTH,
            }
        }),
{
}

/// The registry holds a bound as it is, up to the most that it can hold.
pub proof fn law_registry_bounds_saturate(depth: u64)
    ensures
        registry_depth(depth) <= depth,
        depth <= u32::MAX ==> registry_depth(depth) == depth,
        depth > u32::MAX ==> registry_depth(depth) == u32::MAX,
{
}

/// The bound that a session file records is the last one in it.
pub proof fn law_the_last_recorded_bound_counts(entries: Seq<JsonView>)
    ensures
        match last_recorded_depth(entries) {
            Some(depth) => exists|i: int|
                0 <= i < entries.len() && recorded_depth(#[trigger] entries[i]) == Some(depth)
                    && forall|j: int|
                    i < j < entries.len() ==> recorded_depth(#[trigger] entries[j]) is None,
            None => forall|i: int|
                0 <= i < entries.len() ==> recorded_depth(#[trigger] entries[i]) is None,
        },
    decreases entries.len(),
{
    if entries.len() > 0 {
        let before = entries.drop_last();
        law_the_last_recorded_bound_counts(before);
        let n = entries.len() - 1;
        assert(entries[n] == entries.last());
        match recorded_depth(entries.last()) {
            Some(depth) => {},
            None => {
                match last_recorded_depth(before) {
                    Some(depth) => {
                        let i = choose|i: int|
                            0 <= i < before.len() && recorded_depth(#[trigger] before[i]) == Some(
                                depth,
                            ) && forall|j: int|
                                i < j < before.len() ==> recorded_depth(
                                    #[trigger] before[j],
                                ) is None;
                        assert(entries[i] == before[i]);
                        assert forall|j: int| i < j < entries.len() implies recorded_depth(
                            #[trigger] entries[j],
                        ) is None by {
                            if j < n {
                                assert(before[j] == entries[j]);
                            }
                        }
                    },
                    None => {
                        assert forall|i: int| 0 <= i < entries.len() implies recorded_depth(
                            #[trigger] entries[i],
                        ) is None by {
                            if i < n {
                                assert(before[i] == entries[i]);
                            }
                        }
                    },
                }
            },
        }
    }
}

/// What is reported of the bound is the bound and its source; a new bound is the
/// session's own, and a global setting that was not saved is never reported as
/// saved.
pub proof fn law_bounds_are_reported(
    max_depth: u32,
    source: DepthSource,
    depth: u64,
    global: bool,
    error: Option<Seq<char>>,
)
    ensures
        depth_status(max_depth, source).carries("maxDepth"@, JsonView::uint(max_depth as u64)),
        depth_status(max_depth, source).carries("source"@, JsonView::Str(source.text())),
        depth_entry(depth).carries("maxDepth"@, JsonView::uint(depth)),
        depth_answer(depth, global, error).carries("maxDepth"@, JsonView::uint(depth)),
        depth_answer(depth, global, error).carries("source"@, JsonView::Str("chat"@)),
        depth_answer(depth, global, error).carries(
            "globalSaved"@,
            JsonView::Bool(global && error is None),
        ),
        global && error is Some ==> depth_answer(depth, global, error).carries(
            "globalError"@,
            JsonView::Str(error->0),
        ),
        DepthSource::Chat.text() == "chat"@,
        DepthSource::Inherited.text() == "inherited"@,
        DepthSource::Global.text() == "global"@,
        DepthSource::Env.text() == "env"@,
        DepthSource::Default.text() == "default"@,
{
    broadcast use group_members;

}

/// A path is shown with forward slashes only, one for each of its characters.
pub proof fn law_shown_paths_have_forward_slashes(path: Seq<char>)
    ensures
        forward_slashes(path).len() == path.len(),
        forall|i: int|
            0 <= i < path.len() ==> (#[trigger] forward_slashes(path)[i]) != '\\' && (path[i]
                != '\\' ==> forward_slashes(path)[i] == path[i]) && (path[i] == '\\'
                ==> forward_slashes(path)[i] == '/'),
{
}

/// An artifact is shown by its path below the working directory where it lies
/// there, by its last name where it does not, and as it is where it is no file.
pub proof fn law_artifacts_are_shown_by_their_place(
    path: Seq<char>,
    relative: Option<Seq<char>>,
    name: Option<Seq<char>>,
)
    ensures
        crate::text::starts_with(path, "<"@) && crate::text::ends_with(path, ">"@) ==> logical_path(
            path,
            relative,
            name,
        ) == path,
        !(crate::text::starts_with(path, "<"@) && crate::text::ends_with(path, ">"@)) && relative
            is None && name is Some ==> logical_path(path, relative, name) == name->0,
        !(crate::text::starts_with(path, "<"@) && crate::text::ends_with(path, ">"@)) && (relative
            is None || relative->0.len() == 0) && name is None ==> logical_path(
            path,
            relative,
            name,
        ) == "artifact"@,
        !(crate::text::starts_with(path, "<"@) && crate::text::ends_with(path, ">"@)) && relative
            is Some && relative->0.len() > 0 && !crate::text::starts_with(
            forward_slashes(relative->0),
            ".."@,
        ) && !crate::text::starts_with(forward_slashes(relative->0), "/"@) ==> logical_path(
            path,
            relative,
            name,
        ) == forward_slashes(relative->0),
        !(crate::text::starts_with(path, "<"@) && crate::text::ends_with(path, ">"@)) && relative
            is Some && (crate::text::starts_with(forward_slashes(relative->0), ".."@)
            || crate::text::starts_with(forward_slashes(relative->0), "/"@)) && name is Some
            ==> logical_path(path, relative, name) == name->0,
{
}

/// A reference to an artifact says whose it is, what it is, where it is shown and
/// which digest it has; only a path that is empty has none.
pub proof fn law_artifacts_name_their_session(
    session_id: Seq<char>,
    artifact_type: Seq<char>,
    path: Seq<char>,
    digest: Seq<u8>,
    relative: Option<Seq<char>>,
    name: Option<Seq<char>>,
)
    ensures
        ({
            let artifact = artifact_json(session_id, artifact_type, path, digest, relative, name);
            &&& artifact is None <==> path.len() == 0
            &&& artifact is Some ==> artifact->0.carries("sessionId"@, JsonView::Str(session_id))
                && artifact->0.carries("type"@, JsonView::Str(artifact_type))
                && artifact->0.carries(
                "logicalPath"@,
                JsonView::Str(logical_path(path, relative, name)),
            ) && artifact->0.carries(
                "id"@,
                JsonView::Str("artifact_"@ + first_chars(hex_of(digest), 16)),
            )
        }),
{
    broadcast use group_members;

}

/// Artifacts of one session and type differ in what their id is the digest of
/// exactly where their paths do.
pub proof fn law_artifact_keys_tell_paths_apart(
    session_id: Seq<char>,
    artifact_type: Seq<char>,
    left: Seq<char>,
    right: Seq<char>,
)
    ensures
        artifact_key(session_id, artifact_type, left) == artifact_key(
            session_id,
            artifact_type,
            right,
        ) <==> left == right,
{
    let head = session_id + "\0"@ + artifact_type + "\0"@;
    let a = artifact_key(session_id, artifact_type, left);
    let b = artifact_key(session_id, artifact_type, right);
    if a == b {
        assert(a.subrange(head.len() as int, a.len() as int) =~= left);
        assert(b.subrange(head.len() as int, b.len() as int) =~= right);
    }
}

/// No command of a session is hidden from its clients: each extension's, template's
/// and skill's is shown once, under its own name and as what it is.
pub proof fn law_commands_are_all_shown(
    extensions: Seq<ExtensionCommand>,
    templates: Seq<PromptTemplate>,
    skills: Seq<Skill>,
)
    ensures
        ({
            let shown = commands_json(extensions, templates, skills);
            &&& shown.len() == extensions.len() + templates.len() + skills.len()
            &&& forall|i: int|
                0 <= i < extensions.len() ==> (#[trigger] shown[i]).carries(
                    "name"@,
                    JsonView::Str(extensions[i].invocation_name@),
                ) && shown[i].carries("source"@, JsonView::Str("extension"@)) && shown[i].carries(
                    "registeredName"@,
                    JsonView::Str(extensions[i].name@),
                )
            &&& forall|i: int|
                0 <= i < templates.len() ==> (#[trigger] shown[extensions.len() + i]).carries(
                    "name"@,
                    JsonView::Str(templates[i].name@),
                ) && shown[extensions.len() + i].carries("source"@, JsonView::Str("prompt"@))
            &&& forall|i: int|
                0 <= i < skills.len() ==> (#[trigger] shown[extensions.len() + templates.len()
                    + i]).carries("name"@, JsonView::Str("skill:"@ + skills[i].name@))
                    && shown[extensions.len() + templates.len() + i].carries(
                    "source"@,
                    JsonView::Str("skill"@),
                )
        }),
{
    broadcast use group_members;

    let shown = commands_json(extensions, templates, skills);
    assert forall|i: int| 0 <= i < extensions.len() implies #[trigger] shown[i] == extension_json(
        extensions[i],
    ) by {}
    assert forall|i: int| 0 <= i < templates.len() implies #[trigger] shown[extensions.len() + i]
        == template_json(templates[i]) by {}
    assert forall|i: int| 0 <= i < skills.len() implies #[trigger] shown[extensions.len()
        + templates.len() + i] == skill_json(skills[i]) by {}
}

/// A command's description is shown where it has text, and never made up.
pub proof fn law_descriptions_are_shown(template: PromptTemplate, skill: Skill)
    ensures
        template.description@.len() > 0 ==> template_json(template).carries(
            "description"@,
            JsonView::Str(template.description@),
        ),
        skill.description@.len() > 0 ==> skill_json(skill).carries(
            "description"@,
            JsonView::Str(skill.description@),
        ),
        template_json(template).carries("sourceInfo"@, template.source_info@),
        skill_json(skill).carries("sourceInfo"@, skill.source_info@),
        opt_text(template.argument_hint) matches Some(hint) ==> template_json(template).carries(
            "argumentHint"@,
            JsonView::Str(hint),
        ),
{
    broadcast use group_members;

}

/// No resource of a session is hidden from its clients: each context file, skill
/// and template is shown once, by its own path, and each error of an extension
/// with its own words.
pub proof fn law_resources_are_all_shown(
    session_id: Seq<char>,
    cwd: Seq<char>,
    files: Seq<String>,
    skills: Seq<Skill>,
    templates: Seq<PromptTemplate>,
    diagnostics: JsonView,
    errors: Seq<String>,
)
    ensures
        ({
            let shown = resources_json(
                session_id,
                cwd,
                files,
                skills,
                templates,
                diagnostics,
                errors,
            );
            &&& shown.carries(
                "contextFiles"@,
                JsonView::Array(
                    Seq::new(files.len(), |i: int| context_resource(session_id, cwd, files[i]@)),
                ),
            )
            &&& shown.carries(
                "skills"@,
                JsonView::Array(
                    Seq::new(skills.len(), |i: int| skill_resource(session_id, cwd, skills[i])),
                ),
            )
            &&& shown.carries(
                "prompts"@,
                JsonView::Array(
                    Seq::new(
                        templates.len(),
                        |i: int| template_resource(session_id, cwd, templates[i]),
                    ),
                ),
            )
            &&& exists|told: JsonView|
                #![trigger shown.carries("diagnostics"@, told)]
                shown.carries("diagnostics"@, told) && told.carries("skills"@, diagnostics)
        }),
        forall|i: int|
            0 <= i < skills.len() ==> skill_resource(session_id, cwd, #[trigger] skills[i]).carries(
                "filePath"@,
                JsonView::Str(skills[i].file_path@),
            ) && skill_resource(session_id, cwd, skills[i]).carries(
                "name"@,
                JsonView::Str(skills[i].name@),
            ),
        forall|i: int|
            0 <= i < templates.len() ==> template_resource(
                session_id,
                cwd,
                #[trigger] templates[i],
            ).carries("filePath"@, JsonView::Str(templates[i].file_path@)) && template_resource(
                session_id,
                cwd,
                templates[i],
            ).carries("name"@, JsonView::Str(templates[i].name@)),
        forall|i: int|
            0 <= i < files.len() ==> context_resource(session_id, cwd, #[trigger] files[i]@).carries(
                "path"@,
                JsonView::Str(files[i]@),
            ),
        forall|i: int|
            0 <= i < errors.len() ==> crate::agent_engine::diagnostic_json(
                #[trigger] errors[i]@,
            ).carries("message"@, JsonView::Str(errors[i]@)),
{
    broadcast use group_members;

    let shown = resources_json(session_id, cwd, files, skills, templates, diagnostics, errors);
    let told = JsonView::object().field("skills"@, diagnostics).field(
        "prompts"@,
        JsonView::Array(Seq::empty()),
    ).field(
        "extensions"@,
        JsonView::Array(
            Seq::new(
                errors.len(),
                |i: int| crate::agent_engine::diagnostic_json(errors[i]@),
            ),
        ),
    ).field("themes"@, JsonView::Array(Seq::empty()));
    assert(shown.carries("diagnostics"@, told));
    assert(told.carries("skills"@, diagnostics));
}

/// The summary of a left branch is complete only where it was neither aborted nor
/// failed, and then it holds the very summary, usage and files that came back; a
/// failure keeps its error.
pub proof fn law_branch_summaries_are_kept_whole(result: Option<BranchSummaryResult>)
    ensures
        branch_outcome(result) == BranchView::Aborted <==> result is None || result->0.aborted,
        branch_outcome(result) matches BranchView::Failed { error } ==> result is Some && opt_text(
            result->0.error,
        ) == Some(error),
        result is Some && !result->0.aborted && result->0.error is Some ==> branch_outcome(
            result,
        ) is Failed,
        branch_outcome(result) matches BranchView::Complete { summary, usage, details } ==> result
            is Some && !result->0.aborted && result->0.error is None && usage == opt_view(
            result->0.usage,
        ) && (result->0.summary matches Some(text) ==> summary == text@) && (result->0.summary
            is None ==> summary == "No summary generated"@) && details is Some
            && details->0.carries("readFiles"@, result->0.read_files@) && details->0.carries(
            "modifiedFiles"@,
            result->0.modified_files@,
        ),
{
    broadcast use group_members;

}

/// A tool is shown by the first of its name, with its own description and
/// parameters, and one that is not there is not made up.
pub proof fn law_tools_are_shown_by_name(tools: Seq<ToolInfo>, name: Seq<char>)
    ensures
        match tool_named(tools, name) {
            Some(shown) => exists|i: int|
                0 <= i < tools.len() && (#[trigger] tools[i]).name@ == name && shown == tool_json(
                    tools[i],
                ) && forall|j: int| 0 <= j < i ==> (#[trigger] tools[j]).name@ != name,
            None => forall|i: int| 0 <= i < tools.len() ==> (#[trigger] tools[i]).name@ != name,
        },
        forall|i: int|
            0 <= i < tools.len() ==> tool_json(#[trigger] tools[i]).carries(
                "name"@,
                JsonView::Str(tools[i].name@),
            ) && tool_json(tools[i]).carries("label"@, JsonView::Str(tools[i].label@))
                && tool_json(tools[i]).carries(
                "description"@,
                JsonView::Str(tools[i].description@),
            ) && tool_json(tools[i]).carries("parameters"@, tools[i].parameters@),
    decreases tools.len(),
{
    broadcast use group_members;

    if tools.len() > 0 && tools[0].name@ != name {
        let rest = tools.drop_first();
        law_tools_are_shown_by_name(rest, name);
        match tool_named(tools, name) {
            Some(shown) => {
                let i = choose|i: int|
                    0 <= i < rest.len() && (#[trigger] rest[i]).name@ == name && shown == tool_json(
                        rest[i],
                    ) && forall|j: int| 0 <= j < i ==> (#[trigger] rest[j]).name@ != name;
                assert(tools[i + 1] == rest[i]);
                assert forall|j: int| 0 <= j < i + 1 implies (#[trigger] tools[j]).name@
                    != name by {
                    if j > 0 {
                        assert(rest[j - 1] == tools[j]);
                    }
                }
            },
            None => {
                assert forall|i: int| 0 <= i < tools.len() implies (#[trigger] tools[i]).name@
                    != name by {
                    if i > 0 {
                        assert(rest[i - 1] == tools[i]);
                    }
                }
            },
        }
    }
}

/// A new engine holds its configuration and its own session file, has no children yet,
/// and has some to come exactly where it has a supervisor; nothing of it is built,
/// published or parked.
pub proof fn law_new_engines_are_blank(
    engine: AgentSessionEngine,
    config: AgentEngineConfig,
    env_provider: Option<Seq<char>>,
    env_model: Option<Seq<char>>,
)
    requires
        AgentSessionEngine::is_new(engine, config, env_provider, env_model),
    ensures
        engine.config == config && opt_text(engine.session_file) == opt_text(config.session_file),
        config.model is Some ==> engine.selection@.model == opt_text(config.model),
        config.model is None && config.provider is None ==> engine.selection@.model == env_model
            && engine.selection@.provider == env_provider,
        engine.selection@.thinking == opt_text(config.thinking),
        engine.children is Some <==> config.supervisor_link is Some,
        engine.children matches Some(children) ==> children.children@.len() == 0
            && children.identity.rlm_depth == 0 && children.identity.rlm_max_depth
            == DEFAULT_RLM_MAX_DEPTH && children.agent_dir@ == config.agent_dir@
            && children.parent_active_session_id@ == config.supervisor_link->0.active_session_id@,
        engine.effective_thinking is None && engine.own_summary is None && engine.pending_max_depth
            is None && engine.pending_branch is None && engine.published_goal.state is None,
        engine.rlm_depth == 0 && engine.rlm_max_depth_source == DepthSource::Default,
{
}

/// An engine takes its identity up unless that asks for a thinking level that is not
/// known. Its children then hang below the session that it is, at its depth and under
/// the bound in force, and every child it has stays.
pub proof fn law_identities_are_taken_up(
    before: AgentSessionEngine,
    after: AgentSessionEngine,
    result: Result<(), String>,
    identity: RlmSessionIdentity,
    thinking_known: bool,
    chat: Option<u64>,
    global: Option<u64>,
    env: Option<Seq<char>>,
)
    requires
        AgentSessionEngine::takes_up(
            before,
            after,
            result,
            identity,
            thinking_known,
            chat,
            global,
            env,
        ),
    ensures
        result is Err <==> identity.thinking is Some && !thinking_known,
        after.rlm_depth == identity.rlm_depth,
        after.selection == before.selection && after.config == before.config && after.published_goal
            == before.published_goal && after.session_file == before.session_file,
        result is Err ==> after.children == before.children && after.rlm_max_depth_source
            == before.rlm_max_depth_source,
        result is Ok ==> (after.children is Some <==> before.children is Some),
        result is Ok ==> (after.children matches Some(children) ==> children.children
            == before.children->0.children && children.identity.rlm_depth == identity.rlm_depth
            && children.identity.session_id == identity.session_id && children.identity.session_file
            == identity.session_file && children.identity.cwd == identity.cwd
            && children.identity.thinking == identity.thinking),
        result is Ok && chat is Some ==> after.rlm_max_depth_source == DepthSource::Chat && (
        after.children matches Some(children) ==> (chat->0 < u32::MAX
            ==> children.identity.rlm_max_depth == chat->0)),
        result is Ok && chat is None ==> (identity.rlm_max_depth matches Some(depth)
            ==> after.rlm_max_depth_source == DepthSource::Inherited && (
        after.children matches Some(children) ==> children.identity.rlm_max_depth == depth)),
{
}

/// A depth bound that is set holds for the children from then on and is the session's
/// own. Its entry is written at once for a session that is built, and parked for one
/// that is not; nothing else of the engine changes.
pub proof fn law_set_bounds_hold(
    before: AgentSessionEngine,
    after: AgentSessionEngine,
    answer: JsonView,
    entry: Option<JsonView>,
    max_depth: u64,
    global: bool,
    global_error: Option<Seq<char>>,
    built: bool,
)
    requires
        AgentSessionEngine::sets_depth(
            before,
            after,
            answer,
            entry,
            max_depth,
            global,
            global_error,
            built,
        ),
    ensures
        after.rlm_max_depth_source == DepthSource::Chat,
        after.children is Some <==> before.children is Some,
        after.children matches Some(children) ==> children.children
            == before.children->0.children && children.identity.rlm_depth
            == before.children->0.identity.rlm_depth && (max_depth < u32::MAX
            ==> children.identity.rlm_max_depth == max_depth),
        entry is Some <==> built,
        entry matches Some(entry) ==> entry.carries("maxDepth"@, JsonView::uint(max_depth)),
        !built ==> after.pending_max_depth == Some(max_depth),
        built ==> after.pending_max_depth == before.pending_max_depth,
        answer.carries("maxDepth"@, JsonView::uint(max_depth)),
        answer.carries("globalSaved"@, JsonView::Bool(global && global_error is None)),
        after.rlm_depth == before.rlm_depth && after.selection == before.selection && after.config
            == before.config && after.published_goal == before.published_goal,
{
    broadcast use group_members;

}

/// Children are spawned below the session that they are told of: at its depth, out of
/// its file and directory, with its thinking level and under the nearest bound there is.
/// A thinking level that is not known spawns none.
pub proof fn law_children_are_spawned_below_their_session(
    result: Result<(ParentIdentity, DepthSource), String>,
    identity: RlmSessionIdentity,
    thinking_known: bool,
    chat: Option<u64>,
    global: Option<u64>,
    env: Option<Seq<char>>,
)
    requires
        is_child_identity(result, identity, thinking_known, chat, global, env),
    ensures
        result is Err <==> identity.thinking is Some && !thinking_known,
        result matches Ok((parent, _)) ==> parent.rlm_depth == identity.rlm_depth && parent.cwd
            == identity.cwd && parent.session_id == identity.session_id && parent.session_file
            == identity.session_file && parent.thinking == identity.thinking,
        result matches Ok((parent, source)) ==> (chat matches Some(depth) ==> source
            == DepthSource::Chat && (depth < u32::MAX ==> parent.rlm_max_depth == depth)),
        result matches Ok((parent, source)) ==> (chat is None ==> (
        identity.rlm_max_depth matches Some(depth) ==> source == DepthSource::Inherited
            && parent.rlm_max_depth == depth)),
        result matches Ok((parent, source)) ==> (chat is None && identity.rlm_max_depth is None ==> (
        global matches Some(depth) ==> source == DepthSource::Global && (depth < u32::MAX
            ==> parent.rlm_max_depth == depth))),
{
}

/// The level in force is the one the model takes, and off where it takes none; it stays
/// with the engine until another model or level is asked for.
pub proof fn law_levels_stay_in_force(
    before: AgentSessionEngine,
    asked: AgentSessionEngine,
    after: AgentSessionEngine,
    level: Seq<char>,
    in_force: Seq<char>,
    kept: Seq<char>,
    clamped: Option<Seq<char>>,
    other: Option<Seq<char>>,
)
    requires
        AgentSessionEngine::sets_level(before, asked, in_force, level, clamped),
        AgentSessionEngine::keeps_level(asked, after, kept, other),
    ensures
        clamped matches Some(taken) ==> in_force == taken,
        clamped is None ==> in_force == "off"@,
        kept == in_force,
        after.selection@.thinking == Some(level),
        after.selection@.model == before.selection@.model && after.selection@.provider
            == before.selection@.provider && after.selection@.api_key == before.selection@.api_key,
        after.children == before.children && after.published_goal == before.published_goal,
{
}

/// An engine goes over to the model it is told of and keeps what it is not told of; its
/// level is worked out anew.
pub proof fn law_engines_go_over_to_the_model(
    before: AgentSessionEngine,
    after: AgentSessionEngine,
    selection: SelectionView,
    clamped: Option<Seq<char>>,
)
    requires
        AgentSessionEngine::merges(before, after, selection, clamped),
    ensures
        selection.model is Some ==> after.selection@.model == selection.model,
        selection.model is None ==> after.selection@.model == before.selection@.model,
        selection.provider is Some ==> after.selection@.provider == selection.provider,
        selection.provider is None ==> after.selection@.provider == before.selection@.provider,
        selection.api_key is Some ==> after.selection@.api_key == selection.api_key,
        selection.api_key is None ==> after.selection@.api_key == before.selection@.api_key,
        selection.thinking is Some ==> after.selection@.thinking == selection.thinking,
        selection.thinking is None ==> after.selection@.thinking == before.selection@.thinking,
        clamped matches Some(level) ==> opt_text(after.effective_thinking) == Some(level),
        clamped is None ==> opt_text(after.effective_thinking) == Some("off"@),
        after.children == before.children && after.config == before.config && after.published_goal
            == before.published_goal,
{
}

/// A goal is reported as it is now, else as it was last told, else as the empty one.
pub proof fn law_goals_are_reported_as_they_are(
    published: Option<JsonView>,
    current: Option<JsonView>,
    empty: JsonView,
)
    ensures
        current matches Some(goal) ==> AgentSessionEngine::reported_goal(published, current, empty) == goal,
        current is None ==> (published matches Some(goal) ==> AgentSessionEngine::reported_goal(
            published,
            current,
            empty,
        ) == goal),
        current is None && published is None ==> AgentSessionEngine::reported_goal(published, current, empty) == empty,
{
}

/// A prompt that is a session command runs as that command, and every other prompt is
/// told whole before its turns: as its custom row where it has one, and else as the
/// user's own message with its images.
pub proof fn law_prompts_begin_as_they_are(
    start: PromptStart,
    message: Seq<char>,
    custom_message: Option<&Json>,
    images: Seq<ImageContent>,
    now: u64,
)
    requires
        is_prompt_start(start, message, custom_message, images, now),
    ensures
        start is Command <==> session_command(message) is Some,
        start matches PromptStart::Command(command) ==> session_command(message) == Some(
            (command.name@, command.args@),
        ),
        start matches PromptStart::Turns { accepted } ==> (custom_message matches Some(custom)
            ==> accepted@ == EventView::CustomMessage(custom@)),
        start matches PromptStart::Turns { accepted } ==> (custom_message is None ==> accepted@
            == EventView::UserMessage(user_message(message, images, now))),
{
}

/// What is reported of a model is its own id, name and provider, and whether it reasons.
pub proof fn law_models_are_reported(model: ModelRef, name: Seq<char>, reasoning: bool)
    ensures
        metadata_json(model, name, reasoning).carries("id"@, JsonView::Str(model.id@)),
        metadata_json(model, name, reasoning).carries("name"@, JsonView::Str(name)),
        metadata_json(model, name, reasoning).carries("provider"@, JsonView::Str(model.provider@)),
        metadata_json(model, name, reasoning).carries("reasoning"@, JsonView::Bool(reasoning)),
{
    broadcast use group_members;

}

/// A depth bound that was parked is written once the session is built, and once only.
pub proof fn law_parked_bounds_are_written_once(
    before: AgentSessionEngine,
    after: AgentSessionEngine,
    later: AgentSessionEngine,
    entry: Option<JsonView>,
    second: Option<JsonView>,
)
    requires
        AgentSessionEngine::gives_up_depth(before, after, entry),
        AgentSessionEngine::gives_up_depth(after, later, second),
    ensures
        entry is Some <==> before.pending_max_depth is Some,
        before.pending_max_depth matches Some(depth) ==> entry->0.carries(
            "maxDepth"@,
            JsonView::uint(depth),
        ),
        second is None && later == after,
        after.children == before.children && after.selection == before.selection
            && after.pending_branch == before.pending_branch,
{
    broadcast use group_members;

}

/// A session that is built moves to its branch at once, and one that is not keeps the
/// branch until it is; nothing else of it changes.
pub proof fn law_branches_are_moved_to(
    before: AgentSessionEngine,
    after: AgentSessionEngine,
    taken: Option<Vec<Json>>,
    branch: Vec<Json>,
    built: bool,
)
    requires
        AgentSessionEngine::moves_to(before, after, taken, branch, built),
    ensures
        built ==> taken == Some(branch) && after == before,
        !built ==> taken is None && after.pending_branch == Some(branch),
        after.children == before.children && after.selection == before.selection
            && after.pending_max_depth == before.pending_max_depth && after.published_goal
            == before.published_goal,
{
}

/// A prompt's row is the custom one it came with, and else the user's own message.
pub proof fn law_prompt_rows_are_their_message(
    message: Seq<char>,
    custom: Json,
    images: Seq<ImageContent>,
    now: u64,
)
    ensures
        row_of_prompt(message, Some(&custom), images, now) == EventView::CustomMessage(custom@),
        row_of_prompt(message, None, images, now) == EventView::UserMessage(
            user_message(message, images, now),
        ),
{
}

} // verus!
