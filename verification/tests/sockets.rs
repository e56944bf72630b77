//! Socket paths, and when a socket's place is free.
use pa_daemon::paths::{digest_text, hash_key, hex_prefix, hex_text, join_path};
use pa_daemon::platform::paths as platform_paths;
use pa_daemon::socket::{
    cleanup_socket_path, default_daemon_socket_path, prepare_socket_path, socket_dir,
    socket_identity, watch_stale_socket, worker_socket_path, PathState, PrepareStep,
    SocketIdentity, StaleLook,
};

#[test]
fn paths_worker_socket_names_are_deterministic() {
    let supervisor = "/tmp/prime-agent-1/daemon.sock";
    let dir = platform_paths::socket_dir(Some("1"), None);
    let a = platform_paths::worker_socket_path(&dir, supervisor, "0123456789abcdef");
    let b = platform_paths::worker_socket_path(&dir, supervisor, "fedcba9876543210");
    assert_ne!(a, b);
    // Only the first 12 id characters key the name.
    assert_eq!(
        a,
        platform_paths::worker_socket_path(&dir, supervisor, "0123456789abffff")
    );
    assert!(a.starts_with(&dir));
}

#[test]
fn socket_worker_socket_names_are_deterministic() {
    let supervisor = "/tmp/prime-agent-1/daemon.sock";
    let dir = socket_dir(Some("1"), None);
    let a = worker_socket_path(&dir, supervisor, "0123456789abcdef");
    let b = worker_socket_path(&dir, supervisor, "fedcba9876543210");
    assert_ne!(a, b);
    assert_eq!(a, worker_socket_path(&dir, supervisor, "0123456789abffff"));
    assert!(a.starts_with(&dir));
}

#[test]
fn sockets_lie_in_the_users_directory() {
    assert_eq!(socket_dir(Some("1000"), None), "/tmp/prime-agent-1000");
    assert_eq!(socket_dir(None, Some("/var/tmp")), "/var/tmp/prime-agent-user");
    assert_eq!(
        default_daemon_socket_path("/tmp/prime-agent-1000"),
        "/tmp/prime-agent-1000/daemon.sock"
    );
    assert_eq!(
        platform_paths::current_uid("Name:\tx\nUid:\t1000\t1000\nGid:\t5"),
        Some("1000".to_string())
    );
    assert_eq!(platform_paths::current_uid("Name:\tx"), None);
}

#[test]
fn worker_sockets_are_named_by_key_and_prefix() {
    assert_eq!(
        platform_paths::keyed_worker_socket_path("/run", "0a1b2c3d4e5f", "0123456789abcdef"),
        "/run/worker-0a1b2c3d4e5f-0123456789ab.sock"
    );
    assert_eq!(
        platform_paths::keyed_worker_socket_path("/run", "k", "short"),
        "/run/worker-k-short.sock"
    );
}

#[test]
fn pipes_have_fixed_names() {
    assert_eq!(
        platform_paths::default_daemon_pipe_path(),
        r"\\.\pipe\prime-agent-daemon"
    );
    assert_eq!(
        platform_paths::keyed_worker_pipe_path("0a1b", "0123456789abcdef"),
        r"\\.\pipe\prime-agent-worker-0a1b-0123456789ab"
    );
    let pipe = platform_paths::worker_pipe_path("abc", "w1");
    assert_eq!(pipe, r"\\.\pipe\prime-agent-worker-ba7816bf8f01-w1");
}

#[test]
fn digests_are_written_in_hex() {
    let digest = digest_text("abc");
    assert_eq!(digest.len(), 32);
    assert_eq!(
        hex_text(&digest),
        "ba7816bf8f01cfea414140de5dae2223b00361a396177a9cb410ff61f20015ad"
    );
    assert_eq!(hex_prefix(&digest, 16), "ba7816bf8f01cfea");
    assert_eq!(hash_key("abc", 12), "ba7816bf8f01");
}

#[test]
fn paths_are_joined() {
    assert_eq!(join_path("/a", "b"), "/a/b");
    assert_eq!(join_path("/a/", "b"), "/a/b");
    assert_eq!(join_path("", "b"), "b");
    assert_eq!(join_path("/a", "/b"), "/b");
}

#[test]
fn live_sockets_are_kept() {
    let identity = SocketIdentity { dev: 1, ino: 2 };
    assert_eq!(socket_identity(Some((1, 2))), Some(identity));
    assert_eq!(socket_identity(None), None);
    assert_eq!(
        prepare_socket_path("/s", PathState::Nothing, false),
        PrepareStep::Free
    );
    assert_eq!(
        prepare_socket_path("/s", PathState::NotASocket, false),
        PrepareStep::Refuse("Daemon socket path exists and is not a socket: /s".to_string())
    );
    assert_eq!(
        prepare_socket_path("/s", PathState::Socket(identity), true),
        PrepareStep::Refuse("Daemon socket already in use: /s".to_string())
    );
    assert_eq!(
        prepare_socket_path("/s", PathState::Socket(identity), false),
        PrepareStep::Watch(identity)
    );
    assert_eq!(
        watch_stale_socket("/s", identity, StaleLook::DeadlinePassed),
        PrepareStep::Remove
    );
    assert_eq!(
        watch_stale_socket("/s", identity, StaleLook::Gone),
        PrepareStep::Free
    );
    let other = SocketIdentity { dev: 1, ino: 3 };
    assert_eq!(
        watch_stale_socket(
            "/s",
            identity,
            StaleLook::There {
                identity: other,
                answers: false
            }
        ),
        PrepareStep::Refuse(
            "Daemon socket changed ownership while waiting for cleanup: /s".to_string()
        )
    );
    assert!(!cleanup_socket_path(true, Some(identity), Some(other)));
    assert!(cleanup_socket_path(true, Some(identity), Some(identity)));
    assert!(!cleanup_socket_path(false, Some(identity), Some(identity)));
}
