//! The life of a daemon socket: taking over a stale one, and cleaning up.
use vstd::prelude::*;

pub use crate::platform::paths::{
    default_daemon_socket_path, socket_dir, socket_identity, worker_socket_path, SocketIdentity,
};

use crate::text::concat2;

verus! {

/// The access mode of the daemon's socket files.
pub const DAEMON_SOCKET_MODE: u32 = 0o600;

/// How long a connection attempt may take.
pub const CONNECT_TIMEOUT_MS: u64 = 250;

/// How long a stale socket is watched before it is removed.
pub const STALE_WAIT_MS: u64 = 1_000;

/// How often a stale socket is looked at.
pub const STALE_POLL_MS: u64 = 25;

/// What stands at a socket path.
#[derive(Debug, Clone, Copy, PartialEq, Eq, Structural)]
pub enum PathState {
    Nothing,
    NotASocket,
    Socket(SocketIdentity),
}

/// What is seen of a stale socket while it is watched.
#[derive(Debug, Clone, Copy, PartialEq, Eq, Structural)]
pub enum StaleLook {
    /// The wait is over.
    DeadlinePassed,
    /// The file is gone.
    Gone,
    /// The file is there, of this identity, and a peer answers or not.
    There { identity: SocketIdentity, answers: bool },
}

/// What is done about a socket path.
#[derive(Debug, PartialEq, Eq)]
pub enum PrepareStep {
    /// The path is free.
    Free,
    /// Watch the socket of this identity.
    Watch(SocketIdentity),
    /// Remove the file; the path is free then.
    Remove,
    /// The path cannot be taken.
    Refuse(String),
}

/// The mathematical step behind a [`PrepareStep`].
#[verifier::ext_equal]
pub enum PrepareView {
    Free,
    Watch(SocketIdentity),
    Remove,
    Refuse(Seq<char>),
}

impl View for PrepareStep {
    type V = PrepareView;

    open spec fn view(&self) -> PrepareView {
        match self {
            PrepareStep::Free => PrepareView::Free,
            PrepareStep::Watch(identity) => PrepareView::Watch(*identity),
            PrepareStep::Remove => PrepareView::Remove,
            PrepareStep::Refuse(message) => PrepareView::Refuse(message@),
        }
    }
}

/// The first look at a socket path: nothing there is free, another file or a
/// socket that answers is refused, and a silent socket is watched.
pub open spec fn first_look(path: Seq<char>, state: PathState, answers: bool) -> PrepareView {
    match state {
        PathState::Nothing => PrepareView::Free,
        PathState::NotASocket => PrepareView::Refuse(
            "Daemon socket path exists and is not a socket: "@ + path,
        ),
        PathState::Socket(identity) => if answers {
            PrepareView::Refuse("Daemon socket already in use: "@ + path)
        } else {
            PrepareView::Watch(identity)
        },
    }
}

/// A look at a watched socket: one that is still silent when the wait is over
/// is removed, one that went away leaves the path free, and one that was made
/// anew or answers is refused.
pub open spec fn stale_look(
    path: Seq<char>,
    watched: SocketIdentity,
    look: StaleLook,
) -> PrepareView {
    match look {
        StaleLook::DeadlinePassed => PrepareView::Remove,
        StaleLook::Gone => PrepareView::Free,
        StaleLook::There { identity, answers } => if identity != watched {
            PrepareView::Refuse(
                "Daemon socket changed ownership while waiting for cleanup: "@ + path,
            )
        } else if answers {
            PrepareView::Refuse("Daemon socket already in use: "@ + path)
        } else {
            PrepareView::Watch(watched)
        },
    }
}

/// The first look at a socket path before it is bound.
pub fn prepare_socket_path(path: &str, state: PathState, answers: bool) -> (r: PrepareStep)
    ensures
        r@ == first_look(path@, state, answers),
{
    match state {
        PathState::Nothing => PrepareStep::Free,
        PathState::NotASocket => PrepareStep::Refuse(
            concat2("Daemon socket path exists and is not a socket: ", path),
        ),
        PathState::Socket(identity) => if answers {
            PrepareStep::Refuse(concat2("Daemon socket already in use: ", path))
        } else {
            PrepareStep::Watch(identity)
        },
    }
}

/// A further look at a watched socket.
pub fn watch_stale_socket(path: &str, watched: SocketIdentity, look: StaleLook) -> (r: PrepareStep)
    ensures
        r@ == stale_look(path@, watched, look),
{
    match look {
        StaleLook::DeadlinePassed => PrepareStep::Remove,
        StaleLook::Gone => PrepareStep::Free,
        StaleLook::There { identity, answers } => {
            if identity != watched {
                PrepareStep::Refuse(
                    concat2("Daemon socket changed ownership while waiting for cleanup: ", path),
                )
            } else if answers {
                PrepareStep::Refuse(concat2("Daemon socket already in use: ", path))
            } else {
                PrepareStep::Watch(watched)
            }
        },
    }
}

/// A socket that answers, or was made anew, is never removed.
pub proof fn law_live_sockets_are_kept(
    path: Seq<char>,
    state: PathState,
    watched: SocketIdentity,
    identity: SocketIdentity,
    answers: bool,
)
    ensures
        !(first_look(path, state, answers) is Remove),
        stale_look(path, watched, StaleLook::There { identity, answers }) != PrepareView::Remove,
        answers || identity != watched ==> stale_look(
            path,
            watched,
            StaleLook::There { identity, answers },
        ) is Refuse,
{
}

/// Whether a socket file is removed on shutdown.
pub open spec fn is_removed(
    exists: bool,
    expected_identity: Option<SocketIdentity>,
    current: Option<SocketIdentity>,
) -> bool {
    (exists && (expected_identity is None || current == expected_identity))
}

/// Whether a socket file is removed on shutdown: it must be there and, where an
/// identity is expected, still be the expected file.
pub fn cleanup_socket_path(
    exists: bool,
    expected_identity: Option<SocketIdentity>,
    current: Option<SocketIdentity>,
) -> (r: bool)
    ensures
        r == is_removed(exists, expected_identity, current),
{
    if !exists {
        return false;
    }
    match expected_identity {
        None => true,
        Some(expected) => match current {
            Some(current) => current == expected,
            None => false,
        },
    }
}

} // verus!
