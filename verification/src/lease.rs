//! Session leases: one process hosts one runtime per session file.
//!
//! A lease is a directory named after the file, holding its owner. It is taken
//! by renaming a candidate directory into place; an owner that is provably gone
//! loses it. A guard directory serializes changes to it.
use vstd::prelude::*;

use crate::paths::{
    digest_text, file_name, file_name_of, hex_of, hex_text, join_path, joined, parent_of,
    text_digest,
};
use crate::text::{
    as_opt_str, concat2, concat4, concat5, copy_opt, decimal, decimal_text, is_empty_text, opt_str,
    opt_text, same_text,
};

use crate::ids::{fresh_id, fresh_token};

verus! {

pub const SESSION_LEASES_ENABLED_ENV: &'static str = "PRIME_AGENT_INTERNAL_SESSION_LEASES";

pub const SESSION_LEASE_OWNER_ID_ENV: &'static str = "PRIME_AGENT_INTERNAL_SESSION_LEASE_OWNER_ID";

/// How often a lease is tried for.
pub const LEASE_ATTEMPTS: u32 = 3;

/// How often a guard is tried for.
pub const GUARD_ATTEMPTS: u32 = 100;

/// How old a guard is before its holder counts as gone.
pub const STALE_GUARD_MS: u64 = 5_000;

/// The owner of a lease.
#[derive(Debug, PartialEq, Eq)]
pub struct LeaseOwner {
    pub version: u32,
    pub token: String,
    pub pid: u32,
    pub process_start_id: Option<String>,
    pub active_session_id: Option<String>,
    pub session_path: String,
    pub created_at: String,
}

/// The error of a session file that another process holds.
#[derive(Debug, PartialEq, Eq)]
pub struct SessionAlreadyActiveError {
    pub session_path: String,
    pub active_session_id: Option<String>,
    pub owner: String,
}

/// A text that is not empty.
pub open spec fn non_empty(text: Option<Seq<char>>) -> Option<Seq<char>> {
    match text {
        Some(text) if text.len() > 0 => Some(text),
        _ => None,
    }
}

/// The session that an owner names.
pub open spec fn owner_session(owner: Option<LeaseOwner>) -> Option<Seq<char>> {
    match owner {
        Some(owner) => opt_text(owner.active_session_id),
        None => None,
    }
}

/// Whether an error names a session file and its owner.
pub open spec fn names_owner(
    error: SessionAlreadyActiveError,
    session_path: Seq<char>,
    owner: Option<LeaseOwner>,
) -> bool {
    &&& error.session_path@ == session_path
    &&& opt_text(error.active_session_id) == non_empty(owner_session(owner))
    &&& error.owner@ == match owner_session(owner) {
        Some(id) => id,
        None => "another process"@,
    }
}

impl SessionAlreadyActiveError {
    /// The error for a session file and the owner that holds it, where it is
    /// known.
    pub fn for_owner(session_path: &str, owner: Option<&LeaseOwner>) -> (r: Self)
        ensures
            names_owner(
                r,
                session_path@,
                match owner {
                    Some(owner) => Some(*owner),
                    None => None,
                },
            ),
    {
        let id: Option<String> = match owner {
            Some(owner) => copy_opt(&owner.active_session_id),
            None => None,
        };
        let active_session_id = match &id {
            Some(id) => if is_empty_text(id.as_str()) {
                None
            } else {
                Some(id.clone())
            },
            None => None,
        };
        SessionAlreadyActiveError {
            session_path: session_path.to_owned(),
            active_session_id,
            owner: match id {
                Some(id) => id,
                None => "another process".to_owned(),
            },
        }
    }

    /// The sentence of the error.
    pub open spec fn text(self) -> Seq<char> {
        "Session is already active in "@ + self.owner@ + ": "@ + self.session_path@
    }

    /// The sentence of the error.
    pub fn message(&self) -> (r: String)
        ensures
            r@ == self.text(),
    {
        concat4(
            "Session is already active in ",
            self.owner.as_str(),
            ": ",
            self.session_path.as_str(),
        )
    }
}

/// The canonical path of a session file: its own canonical form, else its name
/// below its directory's canonical form, else the path as it is.
pub open spec fn canonical_of(
    path: Seq<char>,
    canonical: Option<Seq<char>>,
    canonical_parent: Option<Seq<char>>,
    file_name: Option<Seq<char>>,
) -> Seq<char> {
    match canonical {
        Some(canonical) => canonical,
        None => match canonical_parent {
            Some(parent) => joined(
                parent,
                match file_name {
                    Some(name) => name,
                    None => Seq::empty(),
                },
            ),
            None => path,
        },
    }
}

/// The canonical path of a session file, given what the file system knows of
/// it and of its directory.
pub fn canonical_session_path(
    path: &str,
    canonical: Option<&str>,
    canonical_parent: Option<&str>,
) -> (r: String)
    ensures
        r@ == canonical_of(
            path@,
            opt_str(canonical),
            opt_str(canonical_parent),
            file_name_of(path@),
        ),
{
    let name = file_name(path);
    canonical_path_with(path, canonical, canonical_parent, as_opt_str(&name))
}

/// The canonical path of a session file, given its last name too, where it has
/// one.
pub fn canonical_path_with(
    path: &str,
    canonical: Option<&str>,
    canonical_parent: Option<&str>,
    file_name: Option<&str>,
) -> (r: String)
    ensures
        r@ == canonical_of(
            path@,
            opt_str(canonical),
            opt_str(canonical_parent),
            opt_str(file_name),
        ),
{
    match canonical {
        Some(canonical) => canonical.to_owned(),
        None => match canonical_parent {
            Some(parent) => {
                let name = match file_name {
                    Some(name) => name.to_owned(),
                    None => String::new(),
                };
                join_path(parent, name.as_str())
            },
            None => path.to_owned(),
        },
    }
}

/// What a file system that does not change makes of a path: the canonical form
/// of each path that is there is `known`.
pub open spec fn canonical_in(
    known: spec_fn(Seq<char>) -> Option<Seq<char>>,
    path: Seq<char>,
) -> Seq<char> {
    canonical_of(
        path,
        known(path),
        match parent_of(path) {
            Some(parent) => known(parent),
            None => None,
        },
        file_name_of(path),
    )
}

/// Whether canonical forms are those of a file system: a canonical form is its
/// own, and a file that is missing from a directory is missing under the
/// directory's canonical form too, where its directory and its name are found
/// again.
pub open spec fn is_file_system(known: spec_fn(Seq<char>) -> Option<Seq<char>>) -> bool {
    &&& forall|path: Seq<char>| #[trigger]
        known(path) matches Some(canonical) ==> known(canonical) == Some(canonical)
    &&& forall|path: Seq<char>| #[trigger] known(path) is None ==> match (
        parent_of(path),
        file_name_of(path),
    ) {
        (Some(parent), Some(name)) => known(parent) matches Some(directory) ==> {
            let place = joined(directory, name);
            &&& known(place) is None
            &&& parent_of(place) == Some(directory)
            &&& file_name_of(place) == Some(name)
        },
        _ => true,
    }
}

/// A canonical path is its own canonical path, where the file system does not
/// change in between. A path that is missing, and that ends in no name below a
/// path that is there, is left out: it comes back with a separator at its end.
pub proof fn law_canonical_paths_are_canonical(
    known: spec_fn(Seq<char>) -> Option<Seq<char>>,
    path: Seq<char>,
)
    requires
        is_file_system(known),
        known(path) is Some || file_name_of(path) is Some || parent_of(path) is None || known(
            parent_of(path)->0,
        ) is None,
    ensures
        canonical_in(known, canonical_in(known, path)) == canonical_in(known, path),
{
    match known(path) {
        Some(canonical) => {
            assert(known(canonical) == Some(canonical));
        },
        None => {},
    }
}

/// The directory of a session file's lease: below the agent's directory, named
/// by the digest of the canonical path.
pub open spec fn lease_dir_of(agent_dir: Seq<char>, canonical: Seq<char>) -> Seq<char> {
    lease_dir_named(agent_dir, text_digest(canonical))
}

/// The directory of the lease of a digest.
pub open spec fn lease_dir_named(agent_dir: Seq<char>, digest: Seq<u8>) -> Seq<char> {
    joined(joined(agent_dir, "session-leases"@), hex_of(digest) + ".lock"@)
}

/// The directory of a session file's lease.
pub fn lease_directory(agent_dir: &str, canonical: &str) -> (r: String)
    ensures
        r@ == lease_dir_of(agent_dir@, canonical@),
{
    lease_directory_named(agent_dir, &digest_text(canonical))
}

/// The directory of the lease of a digest.
pub fn lease_directory_named(agent_dir: &str, digest: &Vec<u8>) -> (r: String)
    ensures
        r@ == lease_dir_named(agent_dir@, digest@),
{
    let key = hex_text(digest);
    join_path(
        join_path(agent_dir, "session-leases").as_str(),
        concat2(key.as_str(), ".lock").as_str(),
    )
}

/// A lease depends on the canonical path alone: two spellings of one file
/// contend for one lease.
pub proof fn law_one_lease_per_file(
    agent_dir: Seq<char>,
    left: Seq<char>,
    right: Seq<char>,
    canonical: Seq<char>,
    left_parent: Option<Seq<char>>,
    right_parent: Option<Seq<char>>,
    left_name: Option<Seq<char>>,
    right_name: Option<Seq<char>>,
)
    ensures
        lease_dir_of(agent_dir, canonical_of(left, Some(canonical), left_parent, left_name))
            == lease_dir_of(
            agent_dir,
            canonical_of(right, Some(canonical), right_parent, right_name),
        ),
{
}

/// A sibling of a lease directory that only one process uses.
pub open spec fn sibling_of(
    directory: Seq<char>,
    role: Seq<char>,
    pid: u32,
    unique: Seq<char>,
) -> Seq<char> {
    directory + role + decimal(pid as nat) + "-"@ + unique
}

/// The candidate that is renamed into a lease's place.
pub fn candidate_directory(directory: &str, pid: u32, unique: &str) -> (r: String)
    ensures
        r@ == sibling_of(directory@, ".candidate-"@, pid, unique@),
{
    concat5(directory, ".candidate-", decimal_text(pid as u64).as_str(), "-", unique)
}

/// Where a stale lease is moved before it is removed.
pub fn stale_directory(directory: &str, pid: u32, unique: &str) -> (r: String)
    ensures
        r@ == sibling_of(directory@, ".stale-"@, pid, unique@),
{
    concat5(directory, ".stale-", decimal_text(pid as u64).as_str(), "-", unique)
}

/// The guard of a lease directory.
pub fn guard_directory(directory: &str) -> (r: String)
    ensures
        r@ == directory@ + ".guard"@,
{
    concat2(directory, ".guard")
}

/// Whether leases are in use, by the value of the variable that turns them on.
pub open spec fn enables_leases(value: Option<Seq<char>>) -> bool {
    (value == Some("1"@) || value == Some("true"@) || value
        == Some("yes"@))
}

/// Whether leases are in use, by the value of the variable that turns them on.
pub fn leases_enabled(value: Option<&str>) -> (r: bool)
    ensures
        r == enables_leases(opt_str(value)),
{
    match value {
        Some(value) => same_text(value, "1") || same_text(value, "true") || same_text(value, "yes"),
        None => false,
    }
}

/// Whether a lease's owner holds it still: a process that is provably gone does
/// not, nor does one whose start identity is another than the recorded one.
/// What cannot be observed counts for the owner.
pub open spec fn holds_lease(
    running: Option<bool>,
    recorded_start: Option<Seq<char>>,
    current_start: Option<Seq<char>>,
) -> bool {
    match running {
        Some(false) => false,
        None => true,
        Some(true) => recorded_start is None || current_start is None || recorded_start
            == current_start,
    }
}

/// Whether a lease's owner holds it still, given whether its process runs and
/// when that process started, where that is known.
pub fn owner_alive(owner: &LeaseOwner, running: Option<bool>, current_start: Option<&str>) -> (r:
    bool)
    ensures
        r == holds_lease(running, opt_text(owner.process_start_id), opt_str(current_start)),
{
    match running {
        Some(false) => false,
        None => true,
        Some(true) => match &owner.process_start_id {
            None => true,
            Some(expected) => match current_start {
                Some(current) => same_text(current, expected.as_str()),
                None => true,
            },
        },
    }
}

/// What one try for the guard met.
#[derive(Debug, Clone, Copy, PartialEq, Eq, Structural)]
pub enum GuardTry {
    Created,
    /// The guard is there, of this age where it is known.
    Held { age_ms: Option<u64> },
    Failed,
}

/// What is done about the guard.
#[derive(Debug, PartialEq, Eq)]
pub enum GuardStep {
    Acquired,
    /// Remove the guard of a holder that is gone, and try again.
    RemoveStale,
    /// Try again after the pause.
    Pause { ms: u64 },
    /// The file system refuses the guard.
    Fail,
    GiveUp(String),
}

/// What is done about the guard after try number `attempt`.
pub open spec fn guard_decision(attempt: u32, tried: GuardTry) -> GuardStep {
    match tried {
        GuardTry::Created => GuardStep::Acquired,
        GuardTry::Failed => GuardStep::Fail,
        GuardTry::Held { age_ms } => if age_ms is Some && age_ms->0 > STALE_GUARD_MS {
            GuardStep::RemoveStale
        } else {
            GuardStep::Pause { ms: (10 + attempt % 5) as u64 }
        },
    }
}

/// Whether a step is what is done about the guard after a try.
pub open spec fn is_guard_step(
    step: GuardStep,
    directory: Seq<char>,
    attempt: u32,
    tried: GuardTry,
) -> bool {
    &&& attempt < GUARD_ATTEMPTS ==> step == guard_decision(attempt, tried)
    &&& attempt >= GUARD_ATTEMPTS ==> (step matches GuardStep::GiveUp(message) && message@
        == "Could not coordinate session lease: "@ + directory)
}

/// What is done about the guard after try number `attempt`; past the last try
/// it is given up.
pub fn with_lease_guard(directory: &str, attempt: u32, tried: GuardTry) -> (r: GuardStep)
    ensures
        is_guard_step(r, directory@, attempt, tried),
{
    if attempt >= GUARD_ATTEMPTS {
        return GuardStep::GiveUp(concat2("Could not coordinate session lease: ", directory));
    }
    match tried {
        GuardTry::Created => GuardStep::Acquired,
        GuardTry::Failed => GuardStep::Fail,
        GuardTry::Held { age_ms } => {
            let stale = match age_ms {
                Some(age_ms) => age_ms > STALE_GUARD_MS,
                None => false,
            };
            if stale {
                GuardStep::RemoveStale
            } else {
                GuardStep::Pause { ms: (10 + attempt % 5) as u64 }
            }
        },
    }
}

/// What one rename of a candidate met.
#[derive(Debug, PartialEq, Eq)]
pub enum RenameTry {
    Renamed,
    /// The candidate or its target's directory was not there.
    NotFound,
    /// The lease is there; its owner, where it has one, and whether that owner
    /// holds it still.
    Exists { owner: Option<LeaseOwner>, alive: bool },
    /// The file system refuses the rename.
    Failed,
}

/// What is done about a lease.
#[derive(Debug, PartialEq, Eq)]
pub enum LeaseStep {
    Held,
    /// Try again with a new candidate.
    Retry,
    /// Remove the stale lease, then try again.
    Reclaim,
    /// Another process holds it.
    Refuse(SessionAlreadyActiveError),
    /// The file system refuses it.
    Fail,
    GiveUp(String),
}

/// Whether a step is the right one after a rename. The lease is refused only
/// for an owner that holds it still, and reclaimed only from one that does not.
pub open spec fn right_step(step: LeaseStep, path: Seq<char>, tried: RenameTry) -> bool {
    match tried {
        RenameTry::Renamed => step is Held,
        RenameTry::NotFound => step is Retry,
        RenameTry::Failed => step is Fail,
        RenameTry::Exists { owner, alive } => if owner is Some && alive {
            step matches LeaseStep::Refuse(error) && names_owner(error, path, owner)
        } else {
            step is Reclaim
        },
    }
}

/// Whether a step is the right one once the tries are used up: a lease that is
/// held by an owner that holds it still is refused, and any other given up.
pub open spec fn last_step(step: LeaseStep, path: Seq<char>, tried: RenameTry) -> bool {
    match tried {
        RenameTry::Exists { owner, alive } if owner is Some && alive => {
            step matches LeaseStep::Refuse(error) && names_owner(error, path, owner)
        },
        _ => step matches LeaseStep::GiveUp(message) && message@
            == "Could not acquire session lease: "@ + path,
    }
}

/// What is done about a lease after try number `attempt`: past the last try, by
/// the owner that is found there.
pub fn acquire_session_lease(path: &str, attempt: u32, tried: &RenameTry) -> (r: LeaseStep)
    ensures
        attempt < LEASE_ATTEMPTS ==> right_step(r, path@, *tried),
        attempt >= LEASE_ATTEMPTS ==> last_step(r, path@, *tried),
{
    let over = attempt >= LEASE_ATTEMPTS;
    match tried {
        RenameTry::Exists { owner: Some(owner), alive: true } => LeaseStep::Refuse(
            SessionAlreadyActiveError::for_owner(path, Some(owner)),
        ),
        _ if over => LeaseStep::GiveUp(concat2("Could not acquire session lease: ", path)),
        RenameTry::Renamed => LeaseStep::Held,
        RenameTry::NotFound => LeaseStep::Retry,
        RenameTry::Failed => LeaseStep::Fail,
        RenameTry::Exists { .. } => LeaseStep::Reclaim,
    }
}

/// Whether a lease is tried for at all.
pub open spec fn is_wanted(session_path: Option<Seq<char>>, enabled: bool) -> bool {
    (enabled && non_empty(session_path) is Some)
}

/// Whether a lease is tried for at all: leases must be on and the session must
/// have a file.
pub fn wants_lease(session_path: Option<&str>, enabled: bool) -> (r: bool)
    ensures
        r == is_wanted(opt_str(session_path), enabled),
{
    match session_path {
        Some(path) => enabled && !is_empty_text(path),
        None => false,
    }
}

/// Whether an owner is the one written into a candidate.
pub open spec fn is_owner(
    owner: LeaseOwner,
    token: Seq<char>,
    pid: u32,
    process_start_id: Option<String>,
    active_session_id: Option<String>,
    canonical: Seq<char>,
    now: Seq<char>,
) -> bool {
    &&& owner.version == 1
    &&& owner.token@ == token
    &&& owner.pid == pid
    &&& owner.process_start_id == process_start_id
    &&& owner.active_session_id == active_session_id
    &&& owner.session_path@ == canonical
    &&& owner.created_at@ == now
}

/// The owner written into a candidate.
pub fn new_owner(
    token: &str,
    pid: u32,
    process_start_id: Option<String>,
    active_session_id: Option<String>,
    canonical: &str,
    now: &str,
) -> (r: LeaseOwner)
    ensures
        is_owner(r, token@, pid, process_start_id, active_session_id, canonical@, now@),
{
    LeaseOwner {
        version: 1,
        token: token.to_owned(),
        pid,
        process_start_id,
        active_session_id,
        session_path: canonical.to_owned(),
        created_at: now.to_owned(),
    }
}

/// A candidate for a lease: where it is made, and the owner written into it.
#[derive(Debug, PartialEq, Eq)]
pub struct LeaseCandidate {
    pub directory: String,
    pub owner: LeaseOwner,
}

/// A candidate for a lease under a fresh token, in a directory of its own
/// beside the lease.
pub fn fresh_candidate(
    directory: &str,
    pid: u32,
    process_start_id: Option<String>,
    active_session_id: Option<String>,
    canonical: &str,
    now: &str,
) -> (r: LeaseCandidate)
    ensures
        exists|unique: Seq<char>| #[trigger]
            crate::ids::is_token_text(unique) && r.directory@ == sibling_of(
                directory@,
                ".candidate-"@,
                pid,
                unique,
            ),
        r.owner.version == 1,
        crate::ids::is_id_text(r.owner.token@),
        r.owner.pid == pid,
        r.owner.process_start_id == process_start_id,
        r.owner.active_session_id == active_session_id,
        r.owner.session_path@ == canonical@,
        r.owner.created_at@ == now@,
{
    let token = fresh_id();
    let unique = fresh_token();
    let candidate = candidate_directory(directory, pid, unique.as_str());
    assert(crate::ids::is_token_text(unique@));
    LeaseCandidate {
        directory: candidate,
        owner: new_owner(
            token.as_str(),
            pid,
            process_start_id,
            active_session_id,
            canonical,
            now,
        ),
    }
}

/// A fresh place that a stale lease is moved to.
pub fn fresh_stale_directory(directory: &str, pid: u32) -> (r: String)
    ensures
        exists|unique: Seq<char>| #[trigger]
            crate::ids::is_token_text(unique) && r@ == sibling_of(directory@, ".stale-"@, pid, unique),
{
    let unique = fresh_token();
    assert(crate::ids::is_token_text(unique@));
    stale_directory(directory, pid, unique.as_str())
}

/// A lease that is held.
#[derive(Debug, PartialEq, Eq)]
pub struct SessionLease {
    pub session_path: String,
    pub directory: String,
    pub token: String,
    pub released: bool,
}

impl SessionLease {
    /// The lease that a rename brought.
    pub fn held(session_path: String, directory: String, token: String) -> (r: SessionLease)
        ensures
            r == (SessionLease { session_path, directory, token, released: false }),
    {
        SessionLease { session_path, directory, token, released: false }
    }

    /// Begin the release: only the first call goes on to look at the lease.
    pub fn release(&mut self) -> (r: bool)
        ensures
            r == !old(self).released,
            *final(self) == (SessionLease { released: true, ..*old(self) }),
    {
        let first = !self.released;
        self.released = true;
        first
    }

    /// Whether the owner that is found is this lease's own.
    pub open spec fn is_owner(self, owner: Option<LeaseOwner>) -> bool {
        owner matches Some(owner) && owner.token@ == self.token@
    }

    /// Whether the directory is removed on release: only while this lease's own
    /// token is in it.
    pub fn owns(&self, owner: Option<&LeaseOwner>) -> (r: bool)
        ensures
            r == self.is_owner(
                match owner {
                    Some(owner) => Some(*owner),
                    None => None,
                },
            ),
    {
        match owner {
            Some(owner) => same_text(owner.token.as_str(), self.token.as_str()),
            None => false,
        }
    }
}

/// What a rename meets at a lease's place: the place is free, or held by an
/// owner that holds it still or not.
pub open spec fn met(place: Option<LeaseOwner>, alive: bool) -> RenameTry {
    match place {
        None => RenameTry::Renamed,
        Some(_) => RenameTry::Exists { owner: place, alive },
    }
}

/// What is at a lease's place once a lease was released: the first release of
/// the lease that is there frees it, and any other leaves it as it is.
pub open spec fn place_after_release(lease: SessionLease, place: Option<LeaseOwner>) -> Option<
    LeaseOwner,
> {
    if !lease.released && lease.is_owner(place) {
        None
    } else {
        place
    }
}

/// A lease has one holder. While its holder lives every other acquire is
/// refused as already active, whatever try it is; after the release the place is
/// free and the next acquire holds it; and a second release does nothing,
/// whoever holds the place by then.
pub proof fn law_a_lease_has_one_holder(
    lease: SessionLease,
    owner: LeaseOwner,
    path: Seq<char>,
    step: LeaseStep,
    later: Option<LeaseOwner>,
)
    requires
        !lease.released,
        owner.token@ == lease.token@,
    ensures
        right_step(step, path, met(Some(owner), true)) || last_step(
            step,
            path,
            met(Some(owner), true),
        ) ==> (step matches LeaseStep::Refuse(error) && error.session_path@ == path
            && crate::text::contains_text(error.text(), "already active"@)),
        place_after_release(lease, Some(owner)) is None,
        right_step(step, path, met(place_after_release(lease, Some(owner)), true)) ==> step is Held,
        place_after_release(SessionLease { released: true, ..lease }, later) == later,
{
    match step {
        LeaseStep::Refuse(error) => {
            reveal_strlit("Session is already active in ");
            reveal_strlit("already active");
            let text = error.text();
            let needle = "already active"@;
            assert(text.subrange(11, 11 + needle.len() as int) =~= needle);
            assert(crate::text::occurs_at(text, needle, 11));
        },
        _ => {},
    }
}

} // verus!
