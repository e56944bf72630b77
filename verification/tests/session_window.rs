//! Windowed stores and their upgrade to the full history.
use pa_daemon::json::Json;
use pa_daemon::session_window::{SessionEntry, SessionFile, SessionHeader, WindowInfo};

fn entry(i: usize) -> SessionEntry {
    SessionEntry {
        id: format!("e{i}"),
        parent_id: if i == 0 { None } else { Some(format!("e{}", i - 1)) },
        type_: "message".to_string(),
        fields: Json::object().field(
            "message",
            Json::object()
                .field("role", Json::string("user"))
                .field("content", Json::string(&format!("m{i}"))),
        ),
    }
}

fn header() -> SessionHeader {
    SessionHeader {
        id: "s".to_string(),
        cwd: "/tmp".to_string(),
        rlm_depth: None,
    }
}

/// The whole file, as a parse of it gives it.
fn full(count: usize) -> SessionFile {
    let mut entries = Vec::new();
    for i in 0..count {
        entries.push(entry(i));
    }
    SessionFile {
        path: "/sessions/s.jsonl".to_string(),
        header: header(),
        leaf_id: entries.last().map(|e: &SessionEntry| e.id.clone()),
        persisted_entries: entries.len(),
        entries,
        window: None,
    }
}

/// A store that holds only the last `held` entries.
fn windowed_seed(count: usize, held: usize, generation: u64) -> SessionFile {
    let mut entries = Vec::new();
    for i in count - held..count {
        entries.push(entry(i));
    }
    let window = WindowInfo {
        window_entries: entries.len(),
        window_bytes: 0,
        boundary_entry_id: None,
        oldest_entry_id: entries.first().map(|e: &SessionEntry| e.id.clone()),
        generation,
    };
    SessionFile::from_window_parts("/sessions/s.jsonl".to_string(), header(), entries, window)
}

#[test]
fn ensure_full_history_restores_the_full_chain_and_is_idempotent() {
    let mut store = windowed_seed(6, 2, 1);
    assert!(store.window_info().is_some());
    assert_eq!(store.entries.len(), 2);
    assert_eq!(store.leaf_id.as_deref(), Some("e5"));

    assert!(store.ensure_full_history(full(6)));
    assert!(store.window_info().is_none());
    assert_eq!(store.entries.len(), 6);
    assert_eq!(store.leaf_id.as_deref(), Some("e5"));

    // The second upgrade is a no-op on the full store.
    assert!(!store.ensure_full_history(full(6)));
}

#[test]
fn the_full_history_upgrade_absorbs_appends_made_while_the_parse_ran() {
    let mut store = windowed_seed(6, 2, 1);
    let (parse_path, generation) = store.begin_full_history_upgrade().expect("windowed store");
    assert_eq!(parse_path, "/sessions/s.jsonl");

    let parsed = full(6);
    assert_eq!(parsed.entries.len(), 6);

    // The live store keeps appending while the parse runs.
    store.push_index(entry(6));
    store.mark_persisted();
    assert!(store.finish_full_history_upgrade(parsed, generation));

    assert!(store.window_info().is_none());
    assert_eq!(store.entries.len(), 7);
    assert_eq!(store.leaf_id.as_deref(), Some("e6"));
    let ids: Vec<&str> = store.entries.iter().map(|e| e.id.as_str()).collect();
    assert_eq!(ids, ["e0", "e1", "e2", "e3", "e4", "e5", "e6"]);
}

#[test]
fn windowed_rewrite_upgrades_to_the_full_chain_first() {
    let mut store = windowed_seed(6, 2, 1);
    store.push_index(entry(6));
    // A rewrite brings the whole history first.
    assert!(store.ensure_full_history(full(6)));
    assert!(store.window_info().is_none());
    assert_eq!(store.entries.len(), 7);
}

#[test]
fn a_stale_upgrade_install_is_dropped_when_the_store_changed_underneath() {
    let store = windowed_seed(6, 2, 1);
    let (_, generation) = store.begin_full_history_upgrade().expect("windowed store");
    // The worker switched sessions mid-parse: the store is a different
    // windowed seed, so the stale parse is dropped.
    let mut switched = windowed_seed(6, 3, 2);
    assert!(!switched.finish_full_history_upgrade(full(6), generation));
    assert!(switched.window_info().is_some());
    assert_eq!(switched.entries.len(), 3);
}

#[test]
fn a_full_store_has_nothing_to_upgrade() {
    let store = full(3);
    assert!(store.begin_full_history_upgrade().is_none());
    assert!(store.holds("e1"));
    assert!(!store.holds("e7"));
}
