//! Replacing a worker's session, moving in its tree, and forking it.
use pa_daemon::agent_engine::BranchSummaryOutcome;
use pa_daemon::branch_navigation::{
    custom_message_text, fork, fork_dir, fork_plan, fork_point, get_session_tree,
    get_user_messages_for_forking, label_change, navigation_point, set_session_entry_label,
    ForkPlan, ForkPoint, MoveAction, MoveEvent, TreeFacts, TreeMove, TreeNavigation,
    STILL_INITIALIZING,
};
use pa_daemon::json::{Json, Number};
use pa_daemon::protocol::DaemonResponse;
use pa_daemon::session_navigation::{
    copies_import, import_target, open_replacement, prepare_import_jsonl, prepare_new_session,
    replace_session, replacement_cwd, run_session_replacement, switch_target, ImportFacts,
    ReplaceAction, ReplaceEvent, ReplaceStage,
};
use pa_daemon::session_window::{SessionEntry, SessionFile, SessionHeader};
use pa_daemon::worker::SessionCore;
use serde_json::Value;

fn store(path: &str) -> SessionFile {
    SessionFile {
        path: path.to_string(),
        header: SessionHeader {
            id: "s1".to_string(),
            cwd: "/work".to_string(),
            rlm_depth: Some(1),
        },
        entries: Vec::new(),
        leaf_id: None,
        window: None,
        persisted_entries: 0,
    }
}

fn session_core() -> SessionCore {
    SessionCore {
        created: true,
        shutdown_requested: false,
        busy: false,
        compacting: false,
        abort_requested: false,
        retry_abort_requested: false,
        queued_input_suspended: false,
        pending_next_turn: false,
        steering: Vec::new(),
        follow_up: Vec::new(),
        active_session_id: "nav-session".to_string(),
        runtime_kind: "top-level".to_string(),
        cwd: "/work".to_string(),
        store: Some(store("/sessions/s1.jsonl")),
    }
}

/// A replacement whose preparation had an outcome, and the last answer.
fn replaced(command: &str, prepared: Result<(), DaemonResponse>) -> (Vec<ReplaceAction>, ReplaceStage) {
    let mut stage = ReplaceStage::Preparing;
    let mut actions = vec![run_session_replacement(
        &mut stage,
        command,
        ReplaceEvent::Prepared(prepared),
    )];
    if actions[0] == ReplaceAction::TearDown {
        actions.push(run_session_replacement(&mut stage, command, ReplaceEvent::TornDown));
        actions.push(run_session_replacement(
            &mut stage,
            command,
            ReplaceEvent::Replaced(Ok(())),
        ));
    }
    (actions, stage)
}

#[test]
fn new_session_answers_the_ts_cancelled_shape() {
    let payload = json(r#"{"activeSessionId":"nav-session"}"#);
    let fresh = prepare_new_session(&payload, &session_core()).unwrap();
    assert_eq!(fresh.cwd, "/work");
    assert_eq!(fresh.rlm_depth, 1);
    assert_eq!(fresh.session_dir.as_deref(), Some("/sessions"));
    let (mut actions, _) = replaced("new_session", Ok(()));
    let Some(ReplaceAction::PrewarmThenAnswer(response)) = actions.pop() else {
        panic!("an answer");
    };
    assert_eq!(
        response.data.map(|data| to_value(&data)),
        Some(value(r#"{"cancelled":false}"#))
    );
    // The live session's store is the fresh file then.
    let mut live = session_core();
    let binding = replace_session(&mut live, store("/root/sessions/s2.jsonl"));
    let (binding, artifacts) = binding.unwrap();
    assert_eq!(binding.session_file, "/root/sessions/s2.jsonl");
    assert_eq!(binding.active_session_id, "nav-session");
    assert_eq!(artifacts.as_deref(), Some("/root/session-artifacts/s1"));
    assert_eq!(live.store.unwrap().path, "/root/sessions/s2.jsonl");
}

#[test]
fn switch_session_replaces_the_store_and_fails_on_missing_files() {
    let payload = json(
        r#"{"activeSessionId":"nav-session","sessionPath":"/tmp/definitely-missing.jsonl"}"#,
    );
    let (path, cwd) = switch_target(&payload);
    assert_eq!(path, "/tmp/definitely-missing.jsonl");
    assert_eq!(cwd, None);
    let response = open_replacement(
        Err(format!("Session file not found: {path}")),
        &path,
        None,
        false,
        "/work",
        "switch_session",
    )
    .unwrap_err();
    assert!(!response.success, "{response:?}");
    assert!(
        response
            .error
            .as_deref()
            .unwrap_or_default()
            .contains("/tmp/definitely-missing.jsonl"),
        "{response:?}"
    );
}

#[test]
fn replacement_flows_retire_only_on_a_prepared_file() {
    let refused = open_replacement(
        Err("Session file not found: /tmp/definitely-missing-replacement.jsonl".to_string()),
        "/tmp/definitely-missing-replacement.jsonl",
        None,
        false,
        "/work",
        "switch_session",
    )
    .unwrap_err();
    // A failed preparation must not retire the session.
    let (actions, stage) = replaced("switch_session", Err(refused));
    assert_eq!(actions.len(), 1);
    assert!(matches!(&actions[0], ReplaceAction::Answer(response) if !response.success));
    assert_eq!(stage, ReplaceStage::Answered);
    // A prepared one is torn down for, then put in its place and answered.
    let (actions, stage) = replaced("new_session", Ok(()));
    assert_eq!(actions[0], ReplaceAction::TearDown);
    assert_eq!(actions[1], ReplaceAction::Replace);
    assert!(matches!(
        &actions[2],
        ReplaceAction::PrewarmThenAnswer(response) if response.success
    ));
    assert_eq!(stage, ReplaceStage::Answered);
}

#[test]
fn import_jsonl_answers_the_ts_file_not_found_error() {
    let payload =
        json(r#"{"activeSessionId":"nav-session","inputPath":"/tmp/no-such-import.jsonl"}"#);
    let response =
        prepare_import_jsonl(&payload, &session_core(), false, "import.jsonl").unwrap_err();
    assert!(!response.success, "{response:?}");
    assert_eq!(
        response.error.as_deref(),
        Some("File not found: /tmp/no-such-import.jsonl")
    );
}

#[test]
fn imports_are_copied_beside_the_live_file() {
    let payload = json(r#"{"inputPath":"/in/a.jsonl"}"#);
    let facts = ImportFacts {
        is_file: true,
        file_name: Some("a.jsonl".to_string()),
    };
    assert_eq!(
        import_target(&payload, &facts, Some("/sessions"), "import.jsonl"),
        Ok("/sessions/a.jsonl".to_string())
    );
    assert_eq!(
        prepare_import_jsonl(&payload, &session_core(), true, "import.jsonl"),
        Ok("/sessions/a.jsonl".to_string())
    );
    assert_eq!(fork_dir("/sessions/s1.jsonl"), "/sessions");
    // An import in place skips the copy.
    assert!(!copies_import(Some("/s/a"), Some("/s/a")));
    assert!(copies_import(Some("/s/a"), Some("/t/a")));
    assert!(copies_import(None, Some("/t/a")));
    assert!(copies_import(Some("/s/a"), None));
    assert!(!copies_import(None, None));
    let response = import_target(&payload, &facts, None, "import.jsonl").unwrap_err();
    assert_eq!(response.error.as_deref(), Some(STILL_INITIALIZING));
}

#[test]
fn replacements_need_their_working_directory() {
    assert_eq!(replacement_cwd(Some("/a"), "/b").as_deref(), Some("/a"));
    assert_eq!(replacement_cwd(None, "/b").as_deref(), Some("/b"));
    assert_eq!(replacement_cwd(None, ""), None);
    let response = open_replacement(
        Ok(store("/s.jsonl")),
        "/s.jsonl",
        None,
        false,
        "/now",
        "switch_session",
    )
    .unwrap_err();
    assert_eq!(
        response.error.as_deref(),
        Some(
            "Stored session working directory does not exist: /work\nSession file: /s.jsonl\nCurrent working directory: /now"
        )
    );
    assert!(open_replacement(
        Ok(store("/s.jsonl")),
        "/s.jsonl",
        None,
        true,
        "/now",
        "switch_session"
    )
    .is_ok());
    let mut bare = session_core();
    bare.store = None;
    let response = prepare_new_session(&Json::object(), &bare).unwrap_err();
    assert_eq!(response.error.as_deref(), Some(STILL_INITIALIZING));
}

fn entry(id: &str, parent: Option<&str>, kind: &str, fields: &str) -> SessionEntry {
    SessionEntry {
        id: id.to_string(),
        parent_id: parent.map(str::to_string),
        type_: kind.to_string(),
        fields: json(fields),
    }
}

fn facts(target: Option<SessionEntry>, user_text: Option<&str>, leaf: &str) -> Option<TreeFacts> {
    Some(TreeFacts {
        target,
        user_text: user_text.map(str::to_string),
        leaf_id: Some(leaf.to_string()),
    })
}

fn navigation(payload: &str) -> (Option<TreeMove>, MoveAction) {
    TreeMove::navigate_tree(
        &json(payload),
        facts(
            Some(entry("e2", Some("e1"), "message", "{}")),
            Some("hello"),
            "e9",
        ),
    )
}

#[test]
fn a_user_message_goes_back_to_the_input() {
    let (moving, action) = navigation(r#"{"targetId":"e2"}"#);
    let mut moving = moving.unwrap();
    assert_eq!(action, MoveAction::SettleTurn);
    assert_eq!(
        moving.step(MoveEvent::Settled),
        MoveAction::BranchTo {
            new_leaf: Some("e1".to_string())
        }
    );
    assert_eq!(
        moving.step(MoveEvent::Moved(Ok(()))),
        MoveAction::RebuildContext
    );
    let MoveAction::Answer(response) = moving.step(MoveEvent::Rebuilt(Ok(()))) else {
        panic!("an answer");
    };
    assert_eq!(
        to_value(&response.data.unwrap()),
        value(r#"{"cancelled":false,"editorText":"hello"}"#)
    );
    assert_eq!(moving.step(MoveEvent::Settled), MoveAction::Ignore);
}

#[test]
fn a_summary_is_appended_before_the_answer() {
    let (moving, _) = navigation(
        r#"{"targetId":"e2","summarize":true,"customInstructions":"short","label":"mark"}"#,
    );
    let mut moving = moving.unwrap();
    assert_eq!(moving.step(MoveEvent::Settled), MoveAction::CollectEntries);
    assert_eq!(
        moving.step(MoveEvent::Collected { any: true }),
        MoveAction::RunSummary {
            custom_instructions: Some("short".to_string()),
            replace_instructions: false
        }
    );
    let complete = BranchSummaryOutcome::Complete {
        summary: "the branch".to_string(),
        usage: None,
        details: None,
    };
    assert!(matches!(
        moving.step(MoveEvent::Summarized(complete)),
        MoveAction::AppendSummary { .. }
    ));
    assert_eq!(
        moving.step(MoveEvent::Appended(Ok("sum".to_string()))),
        MoveAction::AppendLabel {
            entry_id: "sum".to_string(),
            label: "mark".to_string()
        }
    );
    assert_eq!(
        moving.step(MoveEvent::Labeled(Ok(()))),
        MoveAction::ReadEntry {
            entry_id: "sum".to_string()
        }
    );
    assert_eq!(
        moving.step(MoveEvent::Read(Some(json(r#"{"id":"sum"}"#)))),
        MoveAction::RebuildContext
    );
    let MoveAction::Answer(response) = moving.step(MoveEvent::Rebuilt(Ok(()))) else {
        panic!("an answer");
    };
    assert_eq!(
        to_value(&response.data.unwrap()),
        value(r#"{"cancelled":false,"editorText":"hello","summaryEntry":{"id":"sum"}}"#)
    );
}

#[test]
fn an_aborted_summary_leaves_the_tree() {
    let (moving, _) = navigation(r#"{"targetId":"e2","summarize":true}"#);
    let mut moving = moving.unwrap();
    moving.step(MoveEvent::Settled);
    moving.step(MoveEvent::Collected { any: true });
    let MoveAction::Answer(response) =
        moving.step(MoveEvent::Summarized(BranchSummaryOutcome::Aborted))
    else {
        panic!("an answer");
    };
    assert_eq!(
        to_value(&response.data.unwrap()),
        value(r#"{"cancelled":true,"aborted":true}"#)
    );
}

#[test]
fn navigations_that_cannot_begin_are_answered() {
    let answer = |result: (Option<TreeMove>, MoveAction)| match result {
        (None, MoveAction::Answer(response)) => response,
        other => panic!("expected an answer, got {other:?}"),
    };
    let payload = json(r#"{"targetId":"e2"}"#);
    assert_eq!(
        answer(TreeMove::navigate_tree(&payload, None)).error.as_deref(),
        Some(STILL_INITIALIZING)
    );
    assert_eq!(
        answer(TreeMove::navigate_tree(&payload, facts(None, None, "e9")))
            .error
            .as_deref(),
        Some("Entry e2 not found")
    );
    let there = answer(TreeMove::navigate_tree(
        &payload,
        facts(Some(entry("e2", None, "message", "{}")), None, "e2"),
    ));
    assert!(there.success);
}

#[test]
fn landing_points_follow_the_entry() {
    let custom = entry(
        "e3",
        Some("e2"),
        "custom_message",
        r#"{"content":[{"type":"text","text":"a"},{"type":"image"},{"type":"text","text":"b"}]}"#,
    );
    assert_eq!(custom_message_text(&custom).as_deref(), Some("ab"));
    assert_eq!(
        navigation_point(&custom, None),
        (Some("e2".to_string()), Some("ab".to_string()))
    );
    let answer = entry("e4", Some("e3"), "message", "{}");
    assert_eq!(navigation_point(&answer, None), (Some("e4".to_string()), None));
}

#[test]
fn aborts_go_to_the_running_summary() {
    let mut navigation = TreeNavigation::new();
    assert_eq!(navigation.abort(), None);
    navigation.begin(7);
    assert_eq!(navigation.abort(), Some(7));
    navigation.finish(6);
    assert_eq!(navigation.abort(), Some(7));
    navigation.finish(7);
    assert_eq!(navigation.abort(), None);
}

#[test]
fn forks_start_at_or_before_an_entry() {
    let user = || Some(entry("e2", Some("e1"), "message", "{}"));
    assert_eq!(
        fork_point(&json(r#"{"entryId":"e2"}"#), facts(user(), Some("hello"), "e9")),
        Ok(ForkPoint {
            target_leaf: Some("e1".to_string()),
            selected_text: Some("hello".to_string())
        })
    );
    assert_eq!(
        fork_point(
            &json(r#"{"entryId":"e2","position":"at"}"#),
            facts(user(), Some("hello"), "e9")
        ),
        Ok(ForkPoint {
            target_leaf: Some("e2".to_string()),
            selected_text: None
        })
    );
    assert_eq!(
        fork_point(&json(r#"{"entryId":"e2"}"#), facts(user(), None, "e9")),
        Err("Invalid entry ID for forking".to_string())
    );
    assert_eq!(
        fork_point(&json(r#"{"entryId":"e2"}"#), facts(None, None, "e9")),
        Err("Invalid entry ID for forking".to_string())
    );
    assert_eq!(
        fork_point(&json(r#"{"entryId":"e2"}"#), None),
        Err(STILL_INITIALIZING.to_string())
    );
    assert!(matches!(
        fork_plan(None, "/s.jsonl", Some(1)),
        ForkPlan::Fresh { in_file: true, rlm_depth: 1, .. }
    ));
    assert_eq!(
        fork_plan(Some("e1"), "", None),
        ForkPlan::InMemory {
            leaf_id: "e1".to_string()
        }
    );
    assert_eq!(
        fork_plan(Some("e1"), "/s.jsonl", None),
        ForkPlan::InFile {
            leaf_id: "e1".to_string()
        }
    );
    assert!(fork(Ok(()), Some("hello")).success);
    assert_eq!(fork(Err("no".to_string()), None).error.as_deref(), Some("no"));
}

#[test]
fn tree_questions_wait_for_the_store() {
    let tree = get_session_tree(Some(Json::empty_array()), None);
    assert_eq!(
        to_value(&tree.data.unwrap()),
        value(r#"{"flatNodes":[],"leafId":null}"#)
    );
    assert_eq!(
        get_session_tree(None, None).error.as_deref(),
        Some(STILL_INITIALIZING)
    );
    assert!(get_user_messages_for_forking(Some(Json::empty_array())).success);
    assert!(!get_user_messages_for_forking(None).success);
    assert_eq!(
        label_change(&json(r#"{"entryId":"e1","label":"mark"}"#)),
        ("e1".to_string(), Some("mark".to_string()))
    );
    assert!(set_session_entry_label(Some(Ok(()))).success);
    assert!(!set_session_entry_label(Some(Err("no".to_string()))).success);
    assert!(!set_session_entry_label(None).success);
}

/// A library value as a `serde_json` one, whose objects have no order.
fn to_value(json: &Json) -> Value {
    match json {
        Json::Null => Value::Null,
        Json::Bool(b) => Value::Bool(*b),
        Json::Number(Number::Unsigned(n)) => Value::from(*n),
        Json::Number(Number::Negative(n)) => Value::from(*n),
        Json::Number(Number::Other(text)) => serde_json::from_str(text).unwrap(),
        Json::Str(text) => Value::from(text.as_str()),
        Json::Array(items) => Value::Array(items.iter().map(to_value).collect()),
        Json::Object(members) => Value::Object(
            members
                .iter()
                .map(|(name, value)| (name.clone(), to_value(value)))
                .collect(),
        ),
    }
}

/// A JSON text as a `serde_json` value.
fn value(text: &str) -> Value {
    serde_json::from_str(text).unwrap()
}
/// A `serde_json` value as a library one.
fn from_value(value: &Value) -> Json {
    match value {
        Value::Null => Json::Null,
        Value::Bool(b) => Json::Bool(*b),
        Value::Number(n) => match (n.as_u64(), n.as_i64()) {
            (Some(n), _) => Json::Number(Number::Unsigned(n)),
            (None, Some(n)) => Json::Number(Number::Negative(n)),
            _ => Json::Number(Number::Other(n.to_string())),
        },
        Value::String(text) => Json::string(text),
        Value::Array(items) => Json::array(items.iter().map(from_value).collect()),
        Value::Object(members) => Json::Object(
            members
                .iter()
                .map(|(name, value)| (name.clone(), from_value(value)))
                .collect(),
        ),
    }
}

/// A JSON text as a library value.
fn json(text: &str) -> Json {
    from_value(&serde_json::from_str(text).unwrap())
}
