//! Leases on session files.
use pa_daemon::protocol::{process_start_id, stat_has_fields};
use pa_daemon::lease::{
    acquire_session_lease, canonical_path_with, canonical_session_path, fresh_candidate,
    fresh_stale_directory, guard_directory, lease_directory, lease_directory_named, leases_enabled, new_owner,
    owner_alive, wants_lease, with_lease_guard, GuardStep, GuardTry, LeaseOwner, LeaseStep,
    RenameTry, SessionLease,
};

fn owner(token: &str, active: Option<&str>) -> LeaseOwner {
    new_owner(
        token,
        4711,
        Some("proc:1".to_string()),
        active.map(str::to_string),
        "/s.jsonl",
        "2026-01-01T00:00:00Z",
    )
}

#[test]
fn lease_conflicts_and_releases() {
    // The first holder's rename goes through.
    assert_eq!(
        acquire_session_lease("/s.jsonl", 0, &RenameTry::Renamed),
        LeaseStep::Held
    );
    let mut lease = SessionLease::held(
        "/s.jsonl".to_string(),
        "/leases/x.lock".to_string(),
        "t1".to_string(),
    );
    // Second holder conflicts.
    let step = acquire_session_lease("/s.jsonl", 0, &RenameTry::Exists {
            owner: Some(owner("t1", Some("live"))),
            alive: true,
        },
    );
    let LeaseStep::Refuse(error) = step else {
        panic!("the second holder is refused");
    };
    assert!(error.message().contains("already active"));
    assert!(lease.owns(Some(&owner("t1", None))));
    assert!(lease.release());
    // A lease is released once.
    assert!(!lease.release());
    // Released lease can be acquired again.
    assert_eq!(
        acquire_session_lease("/s.jsonl", 0, &RenameTry::Renamed),
        LeaseStep::Held
    );
}

#[test]
fn stale_leases_are_reclaimed() {
    assert_eq!(
        acquire_session_lease("/s.jsonl", 0, &RenameTry::Exists {
                owner: Some(owner("t1", None)),
                alive: false
            }
        ),
        LeaseStep::Reclaim
    );
    assert_eq!(
        acquire_session_lease("/s.jsonl", 0, &RenameTry::Exists {
                owner: None,
                alive: false
            }
        ),
        LeaseStep::Reclaim
    );
    assert_eq!(
        acquire_session_lease("/s.jsonl", 0, &RenameTry::NotFound),
        LeaseStep::Retry
    );
    assert_eq!(
        acquire_session_lease("/s.jsonl", 3, &RenameTry::NotFound),
        LeaseStep::GiveUp("Could not acquire session lease: /s.jsonl".to_string())
    );
}

#[test]
fn a_live_holder_is_refused_past_the_last_try() {
    let tried = RenameTry::Exists {
        owner: Some(owner("t1", Some("live"))),
        alive: true,
    };
    for attempt in [0, 2, 3, 9] {
        assert!(matches!(
            acquire_session_lease("/s.jsonl", attempt, &tried),
            LeaseStep::Refuse(error) if error.message()
                == "Session is already active in live: /s.jsonl"
        ));
    }
    let stale = RenameTry::Exists {
        owner: None,
        alive: false,
    };
    assert_eq!(
        acquire_session_lease("/s.jsonl", 2, &stale),
        LeaseStep::Reclaim
    );
    assert!(matches!(
        acquire_session_lease("/s.jsonl", 3, &stale),
        LeaseStep::GiveUp(_)
    ));
}

#[test]
fn owners_that_cannot_be_asked_about_are_alive() {
    let held = owner("t1", None);
    assert!(owner_alive(&held, None, None));
    assert!(owner_alive(&held, Some(true), None));
    assert!(owner_alive(&held, Some(true), Some("proc:1")));
    assert!(!owner_alive(&held, Some(true), Some("proc:2")));
    assert!(!owner_alive(&held, Some(false), None));
}

#[test]
fn leases_are_on_where_the_variable_says_so() {
    assert!(leases_enabled(Some("1")));
    assert!(leases_enabled(Some("true")));
    assert!(leases_enabled(Some("yes")));
    assert!(!leases_enabled(Some("0")));
    assert!(!leases_enabled(None));
    assert!(wants_lease(Some("/s.jsonl"), true));
    assert!(!wants_lease(Some(""), true));
    assert!(!wants_lease(None, true));
    assert!(!wants_lease(Some("/s.jsonl"), false));
}

#[test]
fn lease_directories_are_named_by_the_digest() {
    let directory = lease_directory("/agent", "abc");
    // The digest of "abc".
    assert_eq!(
        directory,
        "/agent/session-leases/ba7816bf8f01cfea414140de5dae2223b00361a396177a9cb410ff61f20015ad.lock"
    );
    assert_eq!(guard_directory(&directory), format!("{directory}.guard"));
    assert_eq!(
        lease_directory_named("/agent", &vec![0, 255]),
        "/agent/session-leases/00ff.lock"
    );
}

#[test]
fn candidates_are_fresh() {
    let a = fresh_candidate("/l/x.lock", 7, None, None, "/s.jsonl", "now");
    let b = fresh_candidate("/l/x.lock", 7, None, None, "/s.jsonl", "now");
    assert_ne!(a.directory, b.directory);
    assert_ne!(a.owner.token, b.owner.token);
    assert!(a.directory.starts_with("/l/x.lock.candidate-7-"));
    assert_eq!(a.owner.token.len(), 36);
    assert!(fresh_stale_directory("/l/x.lock", 7).starts_with("/l/x.lock.stale-7-"));
}

#[test]
fn guards_are_waited_for_and_given_up() {
    assert_eq!(
        with_lease_guard("/l", 0, GuardTry::Created),
        GuardStep::Acquired
    );
    assert_eq!(
        with_lease_guard("/l", 3, GuardTry::Held { age_ms: Some(1) }),
        GuardStep::Pause { ms: 13 }
    );
    assert_eq!(
        with_lease_guard(
            "/l",
            3,
            GuardTry::Held {
                age_ms: Some(u64::MAX)
            }
        ),
        GuardStep::RemoveStale
    );
    assert_eq!(with_lease_guard("/l", 0, GuardTry::Failed), GuardStep::Fail);
    assert_eq!(
        with_lease_guard("/l", 100_000, GuardTry::Created),
        GuardStep::GiveUp("Could not coordinate session lease: /l".to_string())
    );
}

#[test]
fn canonical_paths_follow_what_exists() {
    // The canonical path is its own, where the directory is there and the file is not.
    assert_eq!(
        canonical_session_path("/x/a/s", None, Some("/x/a")),
        "/x/a/s"
    );
    assert_eq!(canonical_path_with("p", None, Some("/d"), Some("n")), "/d/n");
    assert_eq!(
        canonical_session_path("a/../s", Some("/x/s"), None),
        "/x/s"
    );
    assert_eq!(
        canonical_session_path("a/s", None, Some("/x/a")),
        "/x/a/s"
    );
    assert_eq!(canonical_session_path("a/s", None, None), "a/s");
}

#[test]
fn process_start_id_reflects_proc() {
    // The twentieth field behind the name in parentheses.
    let stat = "4711 (a) b) S 1 2 3 4 5 6 7 8 9 10 11 12 13 14 15 16 17 18 987654 20 21";
    assert!(stat_has_fields(stat));
    let start = process_start_id(stat);
    assert!(start.is_some());
    assert!(start.unwrap().starts_with("proc:"));
    assert_eq!(process_start_id(stat).as_deref(), Some("proc:987654"));
    assert!(process_start_id("4711 (a) S 1 2").is_none());
}
