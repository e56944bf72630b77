//! Child sessions.
use pa_daemon::json::{Json, Number};
use pa_daemon::rlm_children::{
    child_answer, child_busy, child_command, child_config_value, child_metadata_value,
    child_text, child_thinking, collect_child, collect_result, create_session, delete_command,
    entry, fresh_child_id, launch_child, prompt_child, prompted_child, root_session_handle,
    spawn_depth, spawned_record, wait_for_child, ChildEnd, ChildRecord, ChildRequest,
    CollectStep, CreatedChild, IDLE_WAIT_GRACE_MS, ParentIdentity, PromptedChild,
    SupervisorChildSessions,
};
use serde_json::Value;

fn record(id: &str, name: &str) -> ChildRecord {
    ChildRecord {
        rlm_child_id: id.to_string(),
        session_name: name.to_string(),
        active_session_id: format!("active-{id}"),
        session_id: None,
        session_dir: "/d".to_string(),
        label: String::new(),
        started_at_ms: 100,
        settled: None,
        answer_preview: None,
        answer_captured: false,
    }
}

fn sessions() -> SupervisorChildSessions {
    let mut sessions = SupervisorChildSessions::new("/agent".to_string(), "parent".to_string());
    sessions.track(record("c1", "one"));
    sessions.track(record("c2", "two"));
    sessions
}

#[test]
fn children_settle_once() {
    let mut sessions = sessions();
    sessions.refresh(0, Some(true), None);
    assert_eq!(sessions.children[0].status(), "running");
    sessions.refresh(0, None, Some("lost".to_string()));
    assert_eq!(sessions.children[0].status(), "running");
    sessions.refresh(0, Some(false), Some("done it".to_string()));
    assert_eq!(sessions.children[0].settled, Some(ChildEnd::Done));
    sessions.refresh(0, Some(false), Some("again".to_string()));
    assert_eq!(
        sessions.children[0].answer_preview.as_deref(),
        Some("done it")
    );
    let listed = sessions.list_subagents(250);
    assert_eq!(listed.len(), 2);
    assert_eq!(listed[0].status, "completed");
    assert_eq!(listed[1].duration_ms, Some(150));
    let collected = collect_result(&sessions.children[0], 50);
    assert!(collected.settled);
    assert_eq!(collected.duration_ms, Some(0));
    assert!(entry(&sessions.children[1], 100).executing);
}

#[test]
fn selectors_resolve_alone() {
    let mut sessions = sessions();
    assert_eq!(sessions.resolve_record("two", "child"), Ok(1));
    assert_eq!(sessions.resolve_record("active-c1", "child"), Ok(0));
    assert_eq!(
        sessions.resolve_record("three", "child"),
        Err("No direct RLM child matches \"three\" in the current parent session".to_string())
    );
    sessions.track(record("c3", "two"));
    assert!(sessions.resolve_record("two", "child").is_err());
    assert!(sessions.assert_name_available("two", 1).is_err());
    assert!(sessions.assert_name_available("four", 1).is_ok());
    assert_eq!(
        sessions.collect(&vec!["c2".to_string(), "c1".to_string()]),
        Ok(vec![1, 0])
    );
    assert!(sessions.collect(&vec!["nobody".to_string()]).is_err());
    assert_eq!(
        sessions.delete_subagent(0, Err("busy".to_string()), 100),
        Err("busy".to_string())
    );
    assert_eq!(sessions.children.len(), 3);
    let gone = sessions.delete_subagent(0, Ok(()), 100).unwrap();
    assert_eq!(gone.rlm_child_id, "c1");
    assert_eq!(sessions.children.len(), 2);
}

#[test]
fn children_that_run_are_waited_for_once() {
    let mut child = record("c1", "one");
    assert_eq!(
        collect_child(&child, false, 10, 100),
        CollectStep::Wait {
            active_session_id: "active-c1".to_string(),
            ms: Some(10 + IDLE_WAIT_GRACE_MS)
        }
    );
    assert!(matches!(
        collect_child(&child, false, 0, 100),
        CollectStep::Wait { ms: None, .. }
    ));
    assert!(matches!(
        collect_child(&child, true, 10, 100),
        CollectStep::Collected(result) if !result.settled
    ));
    child.settled = Some(ChildEnd::Done);
    assert!(matches!(
        collect_child(&child, false, 10, 100),
        CollectStep::Collected(result) if result.settled
    ));
}

#[test]
fn children_without_a_prompt_are_killed() {
    let created = || CreatedChild::from_summary(&json(r#"{"id":"a1"}"#), "/d").unwrap();
    assert_eq!(
        prompted_child(created(), Ok(())),
        PromptedChild::Keep(created())
    );
    assert_eq!(
        prompted_child(created(), Err("refused".to_string())),
        PromptedChild::Kill {
            active_session_id: "a1".to_string(),
            error: "refused".to_string()
        }
    );
}

#[test]
fn depth_is_bounded() {
    let mut identity = ParentIdentity::with_default_depth();
    assert_eq!(identity.rlm_max_depth, 2);
    assert_eq!(spawn_depth(&identity), Ok(1));
    identity.rlm_depth = 2;
    assert!(spawn_depth(&identity).is_err());
    assert!(create_session(&identity, None).is_err());
    identity.rlm_depth = 0;
    identity.cwd = Some("/work".to_string());
    assert_eq!(create_session(&identity, Some("a")), Ok("/work/a".to_string()));
    assert_eq!(create_session(&identity, None), Ok("/work".to_string()));
}

#[test]
fn children_are_created_with_their_parents_settings() {
    let mut identity = ParentIdentity::with_default_depth();
    identity.session_id = Some("s1".to_string());
    identity.thinking = Some("low".to_string());
    assert_eq!(child_thinking(None, &identity).as_deref(), Some("low"));
    assert_eq!(child_thinking(Some("high"), &identity).as_deref(), Some("high"));
    let request = ChildRequest {
        name: Some("kid".to_string()),
        prompt: "work".to_string(),
        depth: 1,
        model: "battery/mock/1".to_string(),
        thinking: None,
        cwd: "/work".to_string(),
        session_dir: "/d".to_string(),
    };
    let config = to_value(&child_config_value(&request, &identity));
    assert_eq!(config["provider"], "battery");
    assert_eq!(config["model"], "mock/1");
    assert_eq!(config["rlmDepth"], 1);
    assert_eq!(config["rlmMaxDepth"], 2);
    let metadata = child_metadata_value("c1", "parent", 5, &request, &identity);
    assert_eq!(to_value(&metadata)["prompt"], "work");
    assert_eq!(to_value(&metadata)["parentSessionId"], "s1");
    let create = to_value(&launch_child(&request, &identity, Some(metadata)));
    assert_eq!(create["type"], "create");
    assert_eq!(create["name"], "kid");
    assert_eq!(create["runtimeMetadata"]["rlmChildId"], "c1");
    let sessions = sessions();
    assert_eq!(
        sessions.child_session_dir("c9", "/tmp"),
        "/tmp/prime-agent-rlm-c9"
    );
    assert!(fresh_child_id() != fresh_child_id());
}

#[test]
fn created_children_are_read_from_their_summary() {
    let summary = json(r#"{"activeSessionId":"a1","sessionId":"s9","sessionName":"kid"}"#);
    let created = CreatedChild::from_summary(&summary, "/d").unwrap();
    assert_eq!(created.active_session_id, "a1");
    let record = spawned_record("c1", "kid", &created, "label", 7);
    assert_eq!(record.active_session_id, "a1");
    assert_eq!(record.settled, None);
    assert_eq!(to_value(&delete_command(&record))["activeSessionId"], "a1");
    assert!(CreatedChild::from_summary(&json(r#"{"activeSessionId":""}"#), "/d").is_err());
    assert!(CreatedChild::from_summary(&Json::object(), "/d").is_err());
    assert_eq!(root_session_handle(&created, "m").unwrap().session_file, "");
    let deep = json(r#"{"id":"a1","rlmDepth":1}"#);
    let deep = CreatedChild::from_summary(&deep, "/d").unwrap();
    assert_eq!(
        root_session_handle(&deep, "m").unwrap_err(),
        "Daemon supervisor returned an invalid depth-0 session summary"
    );
    let full = json(
        r#"{"activeSessionId":"a1","sessionId":"s9","sessionName":"kid","sessionFile":"/f","rlmDepth":0}"#,
    );
    let created = CreatedChild::from_summary(&full, "/d").unwrap();
    assert_eq!(root_session_handle(&created, "m").unwrap().session_file, "/f");
}

#[test]
fn child_states_are_read() {
    assert!(child_busy(&json(r#"{"isStreaming":true}"#)));
    assert!(child_busy(&json(r#"{"sessionActions":{"queuedCount":1}}"#)));
    assert!(!child_busy(&json(r#"{"sessionActions":{"queuedCount":0}}"#)));
    assert_eq!(
        child_answer(&json(r#"{"text":"done  it"}"#), "done it").as_deref(),
        Some("done it")
    );
    assert_eq!(child_answer(&json(r#"{"text":""}"#), "x"), None);
    assert_eq!(
        child_text(&json(r#"{"text":"done  it"}"#)).as_deref(),
        Some("done  it")
    );
    assert_eq!(
        to_value(&child_command("get_state", "a1")),
        value(r#"{"type":"get_state","activeSessionId":"a1"}"#)
    );
    assert_eq!(to_value(&prompt_child("a1", "go"))["message"], "go");
    assert_eq!(wait_for_child(0), None);
    assert_eq!(wait_for_child(10), Some(10 + IDLE_WAIT_GRACE_MS));
}

/// A library value as a `serde_json` one, whose objects have no order.
fn to_value(json: &Json) -> Value {
    match json {
        Json::Null => Value::Null,
        Json::Bool(b) => Value::Bool(*b),
        Json::Number(Number::Unsigned(n)) => Value::from(*n),
        Json::Number(Number::Negative(n)) => Value::from(*n),
        Json::Number(Number::Other(text)) => serde_json::from_str(text).unwrap(),
        Json::Str(text) => Value::from(text.as_str()),
        Json::Array(items) => Value::Array(items.iter().map(to_value).collect()),
        Json::Object(members) => Value::Object(
            members
                .iter()
                .map(|(name, value)| (name.clone(), to_value(value)))
                .collect(),
        ),
    }
}

/// A JSON text as a `serde_json` value.
fn value(text: &str) -> Value {
    serde_json::from_str(text).unwrap()
}
/// A `serde_json` value as a library one.
fn from_value(value: &Value) -> Json {
    match value {
        Value::Null => Json::Null,
        Value::Bool(b) => Json::Bool(*b),
        Value::Number(n) => match (n.as_u64(), n.as_i64()) {
            (Some(n), _) => Json::Number(Number::Unsigned(n)),
            (None, Some(n)) => Json::Number(Number::Negative(n)),
            _ => Json::Number(Number::Other(n.to_string())),
        },
        Value::String(text) => Json::string(text),
        Value::Array(items) => Json::array(items.iter().map(from_value).collect()),
        Value::Object(members) => Json::Object(
            members
                .iter()
                .map(|(name, value)| (name.clone(), from_value(value)))
                .collect(),
        ),
    }
}

/// A JSON text as a library value.
fn json(text: &str) -> Json {
    from_value(&serde_json::from_str(text).unwrap())
}
