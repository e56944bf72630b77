//! The roster of agents.
use pa_daemon::agent_roster::{
    canonical_roster_path, queued_child, AgentReport, AgentRoster, AgentRosterStatus,
    CanonicalFiles,
};
use pa_daemon::json::Json;

fn summary(agent: &str, active: Option<&str>, file: Option<&str>) -> Json {
    Json::object()
        .field("sessionId", Json::string(agent))
        .field_opt_str("activeSessionId", active)
        .field_opt_str("sessionFile", file)
        .field("activity", Json::string("idle"))
}

fn report(agent: &str, active: Option<&str>, file: Option<&str>) -> AgentReport {
    AgentReport {
        agent_id: agent.to_string(),
        status: AgentRosterStatus::Idle,
        full_summary: summary(agent, active, file),
        summary: summary(agent, active, file),
        canonical_file: file.map(str::to_string),
    }
}

/// No file exists.
fn files() -> CanonicalFiles {
    CanonicalFiles::new()
}

#[test]
fn write_classifies_and_indexes() {
    let mut roster = AgentRoster::new();
    let entry = roster.write_summary(
        report("s1", Some("a1"), Some("/tmp/s1.jsonl")),
        Some("w1"),
        None,
        &files(),
    );
    assert_eq!(entry.status, AgentRosterStatus::Idle);
    assert_eq!(entry.agent_id, "s1");
    // A working activity reclassifies to running.
    let mut working = report("s1", Some("a1"), Some("/tmp/s1.jsonl"));
    working.status = AgentRosterStatus::Running;
    let entry = roster.write_summary(working, Some("w1"), None, &files());
    assert_eq!(entry.status, AgentRosterStatus::Running);
    assert_eq!(roster.entries().len(), 1);
}

#[test]
fn session_file_ownership_converges() {
    let mut roster = AgentRoster::new();
    roster.write_summary(
        report("s1", Some("a1"), Some("/tmp/shared.jsonl")),
        Some("w1"),
        None,
        &files(),
    );
    // A new agent claiming the same session file evicts the old owner.
    roster.write_summary(
        report("s2", Some("a2"), Some("/tmp/shared.jsonl")),
        Some("w2"),
        None,
        &files(),
    );
    assert!(roster.get("s1").is_none());
    assert!(roster.get("s2").is_some());
    assert_eq!(roster.entries().len(), 1);
}

#[test]
fn delete_is_idempotent() {
    let mut roster = AgentRoster::new();
    roster.write_summary(report("s1", Some("a1"), None), Some("w1"), None, &files());
    roster.delete("s1", &files());
    assert!(roster.get("s1").is_none());
    // Deleting an absent id is a no-op.
    roster.delete("s1", &files());
    assert!(roster.entries().is_empty());
}

#[test]
fn queued_children_classify_running_with_label() {
    let mut roster = AgentRoster::new();
    let mut queued = report("child1", None, None);
    queued.full_summary = queued.full_summary.field("queuedChild", Json::Bool(true));
    assert!(queued_child(&queued.full_summary));
    queued.status = AgentRosterStatus::Running;
    let entry = roster.write_summary(queued, Some("w1"), None, &files());
    assert_eq!(entry.status, AgentRosterStatus::Running);
    assert_eq!(entry.status_label.as_deref(), Some("queued"));
}

#[test]
fn worker_entries_filter_by_worker() {
    let mut roster = AgentRoster::new();
    roster.write_summary(report("s1", Some("a1"), None), Some("w1"), None, &files());
    roster.write_summary(report("s2", Some("a2"), None), Some("w2"), None, &files());
    let w1 = roster.entries_for_worker("w1");
    assert_eq!(w1.len(), 1);
    assert_eq!(w1[0].agent_id, "s1");
}

#[test]
fn a_session_file_belongs_to_one_agent() {
    let mut roster = AgentRoster::new();
    roster.write_summary(report("s1", Some("a1"), Some("/f")), Some("w1"), None, &files());
    roster.write_summary(report("s2", Some("a2"), Some("/f")), Some("w1"), None, &files());
    assert!(roster.get("s1").is_none());
    assert_eq!(roster.entries().len(), 1);
    // Agents of different files share an active id without evicting each other.
    roster.write_summary(report("s3", Some("a2"), Some("/g")), Some("w1"), None, &files());
    assert_eq!(roster.entries().len(), 2);
}

#[test]
fn dropped_files_are_found_by_their_form_now() {
    let mut moved = CanonicalFiles::new();
    moved.note("/f".to_string(), "/elsewhere".to_string());
    // The file's form changed since it was written: its old key stays indexed,
    // and leads to nobody.
    let mut roster = AgentRoster::new();
    roster.write_summary(report("s1", None, Some("/f")), None, None, &files());
    roster.delete("s1", &moved);
    assert!(roster.get("s1").is_none());
    roster.write_summary(report("s2", None, Some("/f")), None, None, &files());
    assert_eq!(roster.entries().len(), 1);
    // An agent that reports another file keeps the old key where the form of its
    // old file changed, and goes when the old key is reported.
    roster.write_summary(report("s2", None, Some("/g")), None, None, &moved);
    roster.write_summary(report("s3", None, Some("/f")), None, None, &files());
    assert!(roster.get("s2").is_none());
    assert!(roster.get("s3").is_some());
    // Where it did not change, the old key goes with the old file.
    roster.write_summary(report("s3", None, Some("/h")), None, None, &files());
    roster.write_summary(report("s4", None, Some("/f")), None, None, &files());
    assert!(roster.get("s3").is_some() && roster.get("s4").is_some());
    assert_eq!(
        roster.get("s4").unwrap().session_file().as_deref(),
        Some("/f")
    );
}

#[test]
fn missing_files_keep_their_path_as_key() {
    assert_eq!(canonical_roster_path("/a/b", None), "/a/b");
    assert_eq!(canonical_roster_path("/a/b", Some("/c")), "/c");
}
