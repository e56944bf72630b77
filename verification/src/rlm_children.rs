//! Child sessions of a session: how deep they nest, what they are created with,
//! what the parent tracks of them, and how they are listed, collected and
//! deleted.
use vstd::prelude::*;
use vstd::utf8::encode_utf8;

use crate::ids::fresh_token;
use crate::json::{or_empty, Json, JsonView};
use crate::paths::{join_path, joined};
use crate::protocol::opt_string;
use crate::text::{
    as_opt_str, chars_of, concat2, concat5, copy_opt, decimal, decimal_text, find_at, find_from,
    is_empty_text, is_text, opt_str, opt_text, same_text, text_of,
};

verus! {

/// How deep children may nest where nothing else is said.
pub const DEFAULT_RLM_MAX_DEPTH: u32 = 2;

/// How long the creation of a child may take.
pub const CREATE_TIMEOUT_MS: u64 = 120_000;

/// How long a child may take to accept its prompt.
pub const PROMPT_TIMEOUT_MS: u64 = 30_000;

/// How long a child may take to tell its state.
pub const STATE_TIMEOUT_MS: u64 = 30_000;

/// How long a child may take to be killed.
pub const KILL_TIMEOUT_MS: u64 = 30_000;

/// What is added to a collect's budget where a child is waited for.
pub const IDLE_WAIT_GRACE_MS: u64 = 5_000;

/// The longest prompt, in bytes, that a child's metadata repeats.
pub const RUNTIME_METADATA_PROMPT_MAX: usize = 4096;

/// The identity that children are spawned from.
#[derive(Debug, PartialEq, Eq)]
pub struct ParentIdentity {
    pub rlm_depth: u32,
    pub rlm_max_depth: u32,
    pub model: Option<String>,
    pub cwd: Option<String>,
    pub session_id: Option<String>,
    pub session_file: Option<String>,
    pub thinking: Option<String>,
    pub child_script: Option<String>,
}

impl ParentIdentity {
    /// The identity of a session that nothing is known of, with the default
    /// depth bound.
    pub fn with_default_depth() -> (r: ParentIdentity)
        ensures
            r == (ParentIdentity {
                rlm_depth: 0,
                rlm_max_depth: DEFAULT_RLM_MAX_DEPTH,
                model: None,
                cwd: None,
                session_id: None,
                session_file: None,
                thinking: None,
                child_script: None,
            }),
    {
        ParentIdentity {
            rlm_depth: 0,
            rlm_max_depth: DEFAULT_RLM_MAX_DEPTH,
            model: None,
            cwd: None,
            session_id: None,
            session_file: None,
            thinking: None,
            child_script: None,
        }
    }
}

/// How a child ended.
#[derive(Debug, Clone, Copy, PartialEq, Eq, Structural)]
pub enum ChildEnd {
    Done,
    Error,
}

/// One tracked child.
#[derive(Debug, PartialEq, Eq)]
pub struct ChildRecord {
    pub rlm_child_id: String,
    pub session_name: String,
    pub active_session_id: String,
    pub session_id: Option<String>,
    pub session_dir: String,
    pub label: String,
    pub started_at_ms: u64,
    /// How it ended; none while it runs.
    pub settled: Option<ChildEnd>,
    pub answer_preview: Option<String>,
    pub answer_captured: bool,
}

impl ChildRecord {
    pub open spec fn status_text(self) -> Seq<char> {
        match self.settled {
            None => "running"@,
            Some(ChildEnd::Done) => "done"@,
            Some(ChildEnd::Error) => "error"@,
        }
    }

    /// The state of its run.
    pub fn status(&self) -> (r: &'static str)
        ensures
            r@ == self.status_text(),
    {
        match self.settled {
            None => "running",
            Some(ChildEnd::Done) => "done",
            Some(ChildEnd::Error) => "error",
        }
    }

    pub open spec fn roster_text(self) -> Seq<char> {
        match self.settled {
            None => "running"@,
            Some(ChildEnd::Done) => "completed"@,
            Some(ChildEnd::Error) => "error"@,
        }
    }

    /// The state it is listed by.
    pub fn roster_status(&self) -> (r: &'static str)
        ensures
            r@ == self.roster_text(),
    {
        match self.settled {
            None => "running",
            Some(ChildEnd::Done) => "completed",
            Some(ChildEnd::Error) => "error",
        }
    }

    /// Whether a selector is for this child: its id, its active session, its
    /// name or its session.
    pub open spec fn answers(self, target: Seq<char>) -> bool {
        ||| self.rlm_child_id@ == target
        ||| self.active_session_id@ == target
        ||| self.session_name@ == target
        ||| opt_text(self.session_id) == Some(target)
    }

    /// Whether a selector is for this child.
    pub fn matches(&self, target: &str) -> (r: bool)
        ensures
            r == self.answers(target@),
    {
        same_text(self.rlm_child_id.as_str(), target) || same_text(
            self.active_session_id.as_str(),
            target,
        ) || same_text(self.session_name.as_str(), target) || is_text(
            as_opt_str(&self.session_id),
            target,
        )
    }

    /// The record once its worker was asked: a child that runs and has no work
    /// left is done, and its answer is taken once.
    pub open spec fn refreshed(self, busy: Option<bool>, answer: Option<String>) -> ChildRecord {
        if busy == Some(false) && self.settled is None {
            ChildRecord {
                settled: Some(ChildEnd::Done),
                answer_preview: if self.answer_captured {
                    self.answer_preview
                } else {
                    answer
                },
                answer_captured: true,
                ..self
            }
        } else {
            self
        }
    }

    /// Take what its worker said: whether it is busy, which is none where it
    /// could not be reached, and its answer.
    pub fn refresh_record(&mut self, busy: Option<bool>, answer: Option<String>)
        ensures
            *final(self) == old(self).refreshed(busy, answer),
    {
        if busy == Some(false) && self.settled.is_none() {
            self.settled = Some(ChildEnd::Done);
            if !self.answer_captured {
                self.answer_preview = answer;
                self.answer_captured = true;
            }
        }
    }
}

/// A settled child stays as it settled, and a child that cannot be reached or
/// is busy keeps its state.
pub proof fn law_children_settle_once(record: ChildRecord, answer: Option<String>)
    ensures
        forall|busy: Option<bool>, later: Option<String>| #[trigger]
            record.refreshed(Some(false), answer).refreshed(busy, later) == record.refreshed(
                Some(false),
                answer,
            ),
        record.refreshed(None, answer) == record,
        record.refreshed(Some(true), answer) == record,
        record.refreshed(Some(false), answer).settled is Some,
{
}

/// A child as it is listed.
#[derive(Debug, PartialEq, Eq)]
pub struct RlmSubagentEntry {
    pub rlm_child_id: String,
    pub active_session_id: Option<String>,
    pub session_id: Option<String>,
    pub session_name: String,
    pub session_dir: String,
    pub status: &'static str,
    /// Whether it is shown as executing.
    pub executing: bool,
    pub duration_ms: Option<u64>,
    pub answer_preview: Option<String>,
    pub label: Option<String>,
    pub last_activity_at: Option<u64>,
}

/// How long a child has run.
pub open spec fn run_time(now_ms: u64, started_at_ms: u64) -> u64 {
    if now_ms >= started_at_ms {
        (now_ms - started_at_ms) as u64
    } else {
        0
    }
}

fn elapsed(now_ms: u64, started_at_ms: u64) -> (r: u64)
    ensures
        r == run_time(now_ms, started_at_ms),
{
    if now_ms >= started_at_ms {
        now_ms - started_at_ms
    } else {
        0
    }
}

/// Whether an entry is that of a record at a time.
pub open spec fn is_entry(entry: RlmSubagentEntry, record: ChildRecord, now_ms: u64) -> bool {
    &&& entry.rlm_child_id == record.rlm_child_id
    &&& entry.active_session_id == Some(record.active_session_id)
    &&& entry.session_id == record.session_id
    &&& entry.session_name == record.session_name
    &&& entry.session_dir == record.session_dir
    &&& entry.status@ == record.roster_text()
    &&& entry.executing == (record.settled is None)
    &&& entry.duration_ms == Some(run_time(now_ms, record.started_at_ms))
    &&& entry.answer_preview == record.answer_preview
    &&& opt_text(entry.label) == if record.label@.len() == 0 {
        None
    } else {
        Some(record.label@)
    }
    &&& entry.last_activity_at == Some(record.started_at_ms)
}

/// A child as it is listed at a time.
pub fn entry(record: &ChildRecord, now_ms: u64) -> (r: RlmSubagentEntry)
    ensures
        is_entry(r, *record, now_ms),
{
    RlmSubagentEntry {
        rlm_child_id: record.rlm_child_id.clone(),
        active_session_id: Some(record.active_session_id.clone()),
        session_id: copy_opt(&record.session_id),
        session_name: record.session_name.clone(),
        session_dir: record.session_dir.clone(),
        status: record.roster_status(),
        executing: record.settled.is_none(),
        duration_ms: Some(elapsed(now_ms, record.started_at_ms)),
        answer_preview: copy_opt(&record.answer_preview),
        label: if is_empty_text(record.label.as_str()) {
            None
        } else {
            Some(record.label.clone())
        },
        last_activity_at: Some(record.started_at_ms),
    }
}

/// A child as it is collected.
#[derive(Debug, PartialEq, Eq)]
pub struct RlmChildResult {
    pub rlm_child_id: String,
    pub session_name: Option<String>,
    pub session_dir: Option<String>,
    pub status: &'static str,
    pub settled: bool,
    pub answer_preview: Option<String>,
    pub duration_ms: Option<u64>,
}

/// Whether a result is that of a record at a time.
pub open spec fn is_result(result: RlmChildResult, record: ChildRecord, now_ms: u64) -> bool {
    &&& result.rlm_child_id == record.rlm_child_id
    &&& result.session_name == Some(record.session_name)
    &&& result.session_dir == Some(record.session_dir)
    &&& result.status@ == record.status_text()
    &&& result.settled == (record.settled is Some)
    &&& result.answer_preview == record.answer_preview
    &&& result.duration_ms == Some(run_time(now_ms, record.started_at_ms))
}

/// A child as it is collected at a time.
pub fn collect_result(record: &ChildRecord, now_ms: u64) -> (r: RlmChildResult)
    ensures
        is_result(r, *record, now_ms),
{
    RlmChildResult {
        rlm_child_id: record.rlm_child_id.clone(),
        session_name: Some(record.session_name.clone()),
        session_dir: Some(record.session_dir.clone()),
        status: record.status(),
        settled: record.settled.is_some(),
        answer_preview: copy_opt(&record.answer_preview),
        duration_ms: Some(elapsed(now_ms, record.started_at_ms)),
    }
}

// ---------------------------------------------------------------------------
// The registry
// ---------------------------------------------------------------------------

/// The children of one session, in the order they were spawned.
#[derive(Debug, PartialEq, Eq)]
pub struct SupervisorChildSessions {
    pub agent_dir: String,
    pub parent_active_session_id: String,
    pub identity: ParentIdentity,
    pub children: Vec<ChildRecord>,
}

/// The places of the children that a selector is for.
pub open spec fn answering(children: Seq<ChildRecord>, target: Seq<char>) -> Seq<int>
    decreases children.len(),
{
    if children.len() == 0 {
        Seq::empty()
    } else {
        let before = answering(children.drop_last(), target);
        if children.last().answers(target) {
            before.push(children.len() - 1)
        } else {
            before
        }
    }
}

proof fn lemma_answering(children: Seq<ChildRecord>, target: Seq<char>)
    ensures
        forall|i: int|
            0 <= i < answering(children, target).len() ==> 0 <= #[trigger] answering(
                children,
                target,
            )[i] < children.len() && children[answering(children, target)[i]].answers(target),
        forall|k: int|
            0 <= k < children.len() && (#[trigger] children[k]).answers(target) ==> answering(
                children,
                target,
            ).contains(k),
    decreases children.len(),
{
    if children.len() > 0 {
        let before = children.drop_last();
        lemma_answering(before, target);
        let found = answering(children, target);
        let earlier = answering(before, target);
        assert forall|i: int| 0 <= i < found.len() implies 0 <= #[trigger] found[i]
            < children.len() && children[found[i]].answers(target) by {
            if i < earlier.len() {
                assert(found[i] == earlier[i]);
                assert(before[earlier[i]] == children[earlier[i]]);
            }
        }
        assert forall|k: int|
            0 <= k < children.len() && (#[trigger] children[k]).answers(
                target,
            ) implies found.contains(k) by {
            if k < before.len() {
                assert(before[k] == children[k]);
                assert(earlier.contains(k));
                let at = choose|at: int| 0 <= at < earlier.len() && earlier[at] == k;
                assert(found[at] == k);
            } else {
                assert(found[found.len() - 1] == k);
            }
        }
    }
}

/// The child that a selector is for; none and more than one are both refused.
pub open spec fn resolved_child(
    children: Seq<ChildRecord>,
    target: Seq<char>,
    kind: Seq<char>,
) -> Result<int, Seq<char>> {
    let found = answering(children, target);
    if found.len() == 0 {
        Err(
            "No direct RLM "@ + kind + " matches \""@ + target
                + "\" in the current parent session"@,
        )
    } else if found.len() == 1 {
        Ok(found[0])
    } else {
        Err(
            "RLM "@ + kind + " selector \""@ + target
                + "\" is ambiguous in the current parent session"@,
        )
    }
}

/// A selector that resolves is for that child and for no other.
pub proof fn law_selectors_resolve_alone(
    children: Seq<ChildRecord>,
    target: Seq<char>,
    kind: Seq<char>,
    k: int,
)
    requires
        0 <= k < children.len(),
    ensures
        resolved_child(children, target, kind) matches Ok(at) ==> (children[k].answers(target)
            <==> k == at),
        resolved_child(children, target, kind) matches Ok(at) ==> 0 <= at < children.len(),
{
    lemma_answering(children, target);
    let found = answering(children, target);
    if found.len() == 1 {
        assert(0 <= found[0] < children.len());
        if children[k].answers(target) {
            assert(found.contains(k));
        }
    }
}

/// Whether a name is taken by a child.
pub open spec fn name_taken(children: Seq<ChildRecord>, name: Seq<char>) -> bool {
    exists|i: int| 0 <= i < children.len() && (#[trigger] children[i]).session_name@ == name
}

/// The directory of a child: below its parent's artifacts, and a directory of
/// its own in the temporary one where the parent has no session.
pub open spec fn child_dir(
    agent_dir: Seq<char>,
    temp_dir: Seq<char>,
    session_id: Option<Seq<char>>,
    child_id: Seq<char>,
) -> Seq<char> {
    match session_id {
        Some(session_id) => joined(
            joined(joined(agent_dir, "session-artifacts"@), session_id),
            child_id,
        ),
        None => joined(temp_dir, "prime-agent-rlm-"@ + child_id),
    }
}

impl SupervisorChildSessions {
    /// A session without children.
    pub fn new(agent_dir: String, parent_active_session_id: String) -> (r: SupervisorChildSessions)
        ensures
            r.agent_dir == agent_dir,
            r.parent_active_session_id == parent_active_session_id,
            r.children@.len() == 0,
            r.identity == (ParentIdentity {
                rlm_depth: 0,
                rlm_max_depth: DEFAULT_RLM_MAX_DEPTH,
                model: None,
                cwd: None,
                session_id: None,
                session_file: None,
                thinking: None,
                child_script: None,
            }),
    {
        SupervisorChildSessions {
            agent_dir,
            parent_active_session_id,
            identity: ParentIdentity::with_default_depth(),
            children: Vec::new(),
        }
    }

    /// Replace the identity that children are spawned from.
    pub fn set_identity(&mut self, identity: ParentIdentity)
        ensures
            *final(self) == (SupervisorChildSessions { identity, ..*old(self) }),
    {
        self.identity = identity;
    }

    /// Set the model that children inherit.
    pub fn set_model(&mut self, model: String)
        ensures
            *final(self) == (SupervisorChildSessions {
                identity: ParentIdentity { model: Some(model), ..old(self).identity },
                ..*old(self)
            }),
    {
        self.identity.model = Some(model);
    }

    /// Set the depth bound that children are held to.
    pub fn set_rlm_max_depth(&mut self, max_depth: u32)
        ensures
            *final(self) == (SupervisorChildSessions {
                identity: ParentIdentity { rlm_max_depth: max_depth, ..old(self).identity },
                ..*old(self)
            }),
    {
        self.identity.rlm_max_depth = max_depth;
    }

    /// Whether a verdict says whether a child may have a name.
    pub open spec fn is_name_verdict(
        result: Result<(), String>,
        children: Seq<ChildRecord>,
        name: Seq<char>,
        depth: u32,
    ) -> bool {
        match result {
            Ok(_) => !name_taken(children, name),
            Err(message) => name_taken(children, name) && message@ == "Agent name \""@
                + name + "\" is unavailable: an agent of that name already exists at depth "@
                + decimal(depth as nat) + " under this parent"@,
        }
    }

    /// Whether a child may have a name: no tracked child has it.
    pub fn assert_name_available(&self, name: &str, depth: u32) -> (r: Result<(), String>)
        ensures
            Self::is_name_verdict(r, self.children@, name@, depth),
    {
        let mut i: usize = 0;
        while i < self.children.len()
            invariant
                i <= self.children@.len(),
                forall|j: int|
                    0 <= j < i ==> (#[trigger] self.children@[j]).session_name@ != name@,
            decreases self.children@.len() - i,
        {
            if same_text(self.children[i].session_name.as_str(), name) {
                assert(self.children@[i as int].session_name@ == name@);
                return Err(
                    concat5(
                        "Agent name \"",
                        name,
                        "\" is unavailable: an agent of that name already exists at depth ",
                        decimal_text(depth as u64).as_str(),
                        " under this parent",
                    ),
                );
            }
            i = i + 1;
        }
        Ok(())
    }

    /// The directory of a child.
    pub fn child_session_dir(&self, child_id: &str, temp_dir: &str) -> (r: String)
        ensures
            r@ == child_dir(
                self.agent_dir@,
                temp_dir@,
                opt_text(self.identity.session_id),
                child_id@,
            ),
    {
        match &self.identity.session_id {
            Some(session_id) => {
                let artifacts = join_path(self.agent_dir.as_str(), "session-artifacts");
                let session = join_path(artifacts.as_str(), session_id.as_str());
                join_path(session.as_str(), child_id)
            },
            None => join_path(temp_dir, concat2("prime-agent-rlm-", child_id).as_str()),
        }
    }

    /// The child that a selector is for.
    pub fn resolve_record(&self, target: &str, miss_kind: &str) -> (r: Result<usize, String>)
        ensures
            match r {
                Ok(at) => at < self.children@.len() && resolved_child(
                    self.children@,
                    target@,
                    miss_kind@,
                ) == Ok::<int, Seq<char>>(at as int),
                Err(message) => resolved_child(self.children@, target@, miss_kind@) == Err::<
                    int,
                    Seq<char>,
                >(message@),
            },
    {
        let mut found: usize = 0;
        let mut at: usize = 0;
        let mut i: usize = 0;
        let length: usize = self.children.len();
        proof {
            lemma_answering(self.children@, target@);
        }
        assert(self.children@.take(0) =~= Seq::empty());
        while i < length
            invariant
                length == self.children@.len(),
                found <= i <= length,
                found == answering(self.children@.take(i as int), target@).len(),
                found > 0 ==> answering(self.children@.take(i as int), target@)[0] == at,
            decreases length - i,
        {
            assert(self.children@.take(i + 1).drop_last() =~= self.children@.take(i as int));
            if self.children[i].matches(target) {
                if found == 0 {
                    at = i;
                }
                found = found + 1;
            }
            i = i + 1;
        }
        assert(self.children@.take(i as int) =~= self.children@);
        if found == 0 {
            Err(
                concat5(
                    "No direct RLM ",
                    miss_kind,
                    " matches \"",
                    target,
                    "\" in the current parent session",
                ),
            )
        } else if found == 1 {
            Ok(at)
        } else {
            Err(
                concat5(
                    "RLM ",
                    miss_kind,
                    " selector \"",
                    target,
                    "\" is ambiguous in the current parent session",
                ),
            )
        }
    }

    /// Track a child that was spawned.
    pub fn track(&mut self, record: ChildRecord)
        ensures
            final(self).children@ == old(self).children@.push(record),
            final(self).identity == old(self).identity,
            final(self).agent_dir == old(self).agent_dir,
            final(self).parent_active_session_id == old(self).parent_active_session_id,
    {
        self.children.push(record);
    }

    /// Take what the worker of the child at a place said.
    pub fn refresh(&mut self, at: usize, busy: Option<bool>, answer: Option<String>)
        requires
            at < old(self).children@.len(),
        ensures
            final(self).children@ == old(self).children@.update(
                at as int,
                old(self).children@[at as int].refreshed(busy, answer),
            ),
            final(self).identity == old(self).identity,
            final(self).agent_dir == old(self).agent_dir,
            final(self).parent_active_session_id == old(self).parent_active_session_id,
    {
        self.children[at].refresh_record(busy, answer);
    }

    /// The children as they are listed at a time, in the order they were
    /// spawned.
    pub fn list_subagents(&self, now_ms: u64) -> (r: Vec<RlmSubagentEntry>)
        ensures
            r@.len() == self.children@.len(),
            forall|i: int|
                0 <= i < r@.len() ==> is_entry(#[trigger] r@[i], self.children@[i], now_ms),
    {
        let mut out: Vec<RlmSubagentEntry> = Vec::new();
        let mut i: usize = 0;
        while i < self.children.len()
            invariant
                i <= self.children@.len(),
                out@.len() == i,
                forall|j: int|
                    0 <= j < out@.len() ==> is_entry(#[trigger] out@[j], self.children@[j], now_ms),
            decreases self.children@.len() - i,
        {
            out.push(entry(&self.children[i], now_ms));
            i = i + 1;
        }
        out
    }

    /// Whether the children and an answer are what deleting the child at a place gives.
    pub open spec fn is_deleted(
        before: Self,
        after: Self,
        result: Result<RlmSubagentEntry, String>,
        at: usize,
        killed: Result<(), String>,
        now_ms: u64,
    ) -> bool {
        match killed {
            Ok(_) => {
                &&& result matches Ok(entry) && is_entry(
                    entry,
                    before.children@[at as int],
                    now_ms,
                )
                &&& after.children@ == before.children@.remove(at as int)
                &&& after.identity == before.identity
                &&& after.agent_dir == before.agent_dir
                &&& after.parent_active_session_id == before.parent_active_session_id
            },
            Err(error) => result == Err::<RlmSubagentEntry, String>(error) && after == before,
        }
    }

    /// Forget the child at a place once its worker was killed, and tell how it
    /// stood. A kill that failed keeps the child, so that it can be tried again,
    /// and its error is the answer.
    pub fn delete_subagent(&mut self, at: usize, killed: Result<(), String>, now_ms: u64) -> (r:
        Result<RlmSubagentEntry, String>)
        requires
            at < old(self).children@.len(),
        ensures
            Self::is_deleted(*old(self), *final(self), r, at, killed, now_ms),
    {
        match killed {
            Ok(_) => {
                let record = self.children.remove(at);
                Ok(entry(&record, now_ms))
            },
            Err(error) => Err(error),
        }
    }

    /// Whether places are those of the children that a collect is for, or a refusal that of
    /// the first name that does not resolve.
    pub open spec fn is_collect(
        result: Result<Vec<usize>, String>,
        children: Seq<ChildRecord>,
        targets: Seq<String>,
    ) -> bool {
        match result {
            Ok(places) => if targets.len() == 0 {
                places@.len() == children.len() && forall|i: int|
                    0 <= i < places@.len() ==> #[trigger] places@[i] == i
            } else {
                places@.len() == targets.len() && forall|i: int|
                    0 <= i < places@.len() ==> #[trigger] places@[i] < children.len()
                        && resolved_child(children, targets[i]@, "child"@) == Ok::<
                        int,
                        Seq<char>,
                    >(places@[i] as int)
            },
            Err(message) => exists|i: int|
                #![trigger targets[i]]
                0 <= i < targets.len() && resolved_child(
                    children,
                    targets[i]@,
                    "child"@,
                ) == Err::<int, Seq<char>>(message@) && forall|j: int|
                    0 <= j < i ==> resolved_child(
                        children,
                        (#[trigger] targets[j])@,
                        "child"@,
                    ) is Ok,
        }
    }

    /// The places of the children that a collect is for: every child where
    /// nothing is named, else each named one in turn; a name that does not
    /// resolve refuses the collect.
    pub fn collect(&self, targets: &Vec<String>) -> (r: Result<Vec<usize>, String>)
        ensures
            Self::is_collect(r, self.children@, targets@),
    {
        let mut places: Vec<usize> = Vec::new();
        let mut i: usize = 0;
        if targets.len() == 0 {
            while i < self.children.len()
                invariant
                    i <= self.children@.len(),
                    places@.len() == i,
                    forall|j: int| 0 <= j < places@.len() ==> #[trigger] places@[j] == j,
                decreases self.children@.len() - i,
            {
                places.push(i);
                i = i + 1;
            }
            return Ok(places);
        }
        while i < targets.len()
            invariant
                i <= targets@.len(),
                places@.len() == i,
                forall|j: int|
                    0 <= j < places@.len() ==> #[trigger] places@[j] < self.children@.len()
                        && resolved_child(self.children@, targets@[j]@, "child"@) == Ok::<
                        int,
                        Seq<char>,
                    >(places@[j] as int),
                forall|j: int|
                    0 <= j < i ==> resolved_child(
                        self.children@,
                        (#[trigger] targets@[j])@,
                        "child"@,
                    ) is Ok,
            decreases targets@.len() - i,
        {
            match self.resolve_record(targets[i].as_str(), "child") {
                Ok(at) => {
                    places.push(at);
                },
                Err(message) => {
                    assert(resolved_child(self.children@, targets@[i as int]@, "child"@) == Err::<
                        int,
                        Seq<char>,
                    >(message@));
                    return Err(message);
                },
            }
            i = i + 1;
        }
        Ok(places)
    }
}

/// How long a child may take to go idle inside a budget.
pub open spec fn idle_wait(budget_ms: u64) -> Option<u64> {
    if budget_ms == 0 {
        None
    } else {
        Some((budget_ms + IDLE_WAIT_GRACE_MS) as u64)
    }
}

/// How long a child may take to go idle inside a budget; none where no budget
/// is left, and it is not waited for.
pub fn wait_for_child(budget_ms: u64) -> (r: Option<u64>)
    requires
        budget_ms <= u64::MAX - IDLE_WAIT_GRACE_MS,
    ensures
        r == idle_wait(budget_ms),
{
    if budget_ms == 0 {
        None
    } else {
        Some(budget_ms + IDLE_WAIT_GRACE_MS)
    }
}

/// What a collect does next for one child.
#[derive(Debug, PartialEq, Eq)]
pub enum CollectStep {
    /// Wait for it, for this time where there is one, and ask it again.
    Wait { active_session_id: String, ms: Option<u64> },
    /// It is collected as it stands.
    Collected(RlmChildResult),
}

/// Whether a step is what a collect does for one child.
pub open spec fn is_collect_step(
    step: CollectStep,
    record: ChildRecord,
    waited: bool,
    remaining_ms: u64,
    now_ms: u64,
) -> bool {
    if record.settled is None && !waited {
        step == (CollectStep::Wait {
            active_session_id: record.active_session_id,
            ms: if remaining_ms == 0 {
                None
            } else {
                Some((remaining_ms + IDLE_WAIT_GRACE_MS) as u64)
            },
        })
    } else {
        step matches CollectStep::Collected(result) && is_result(result, record, now_ms)
    }
}

/// What a collect does for one child that was just asked: a child that still
/// runs is waited for once, inside what is left of the budget, and then
/// collected as it stands; a settled one is collected at once.
pub fn collect_child(record: &ChildRecord, waited: bool, remaining_ms: u64, now_ms: u64) -> (r:
    CollectStep)
    requires
        remaining_ms <= u64::MAX - IDLE_WAIT_GRACE_MS,
    ensures
        is_collect_step(r, *record, waited, remaining_ms, now_ms),
{
    if record.settled.is_none() && !waited {
        return CollectStep::Wait {
            active_session_id: record.active_session_id.clone(),
            ms: wait_for_child(remaining_ms),
        };
    }
    CollectStep::Collected(collect_result(record, now_ms))
}

// ---------------------------------------------------------------------------
// Spawning
// ---------------------------------------------------------------------------

/// A fresh id for a child: a prefix and eight hexadecimal digits.
pub fn fresh_child_id() -> (r: String)
    ensures
        exists|token: Seq<char>|
            token.len() == 8 && (forall|i: int|
                0 <= i < 8 ==> crate::ids::is_hex_digit(#[trigger] token[i])) && r@ == #[trigger] (
            "sub-"@ + token),
{
    let token = fresh_token();
    let chars = chars_of(token.as_str());
    let head = text_of(&chars, 0, 8);
    assert forall|i: int| 0 <= i < 8 implies crate::ids::is_hex_digit(#[trigger] head@[i]) by {
        assert(head@[i] == token@[i]);
    }
    let id = concat2("sub-", head.as_str());
    assert(id@ == "sub-"@ + head@);
    id
}

/// The depth of a child of a session at a depth; none where the session is at
/// its bound.
pub open spec fn level_below(depth: int, max_depth: int) -> Option<int> {
    if depth < max_depth {
        Some(depth + 1)
    } else {
        None
    }
}

/// Whether a depth, or its refusal, is that of a new child.
pub open spec fn is_spawn_depth(result: Result<u32, String>, identity: ParentIdentity) -> bool {
    match result {
        Ok(depth) => level_below(
            identity.rlm_depth as int,
            identity.rlm_max_depth as int,
        ) == Some(depth as int),
        Err(message) => level_below(
            identity.rlm_depth as int,
            identity.rlm_max_depth as int,
        ) is None && message@ == "RLM recursion depth limit reached (RLM_DEPTH="@ + decimal(
            identity.rlm_depth as nat,
        ) + ", RLM_MAX_DEPTH="@ + decimal(identity.rlm_max_depth as nat) + ")"@,
    }
}

/// How deep a new child is, or why there is none: a session at its depth bound
/// spawns no children.
pub fn spawn_depth(identity: &ParentIdentity) -> (r: Result<u32, String>)
    ensures
        is_spawn_depth(r, *identity),
{
    if identity.rlm_depth >= identity.rlm_max_depth {
        return Err(
            concat5(
                "RLM recursion depth limit reached (RLM_DEPTH=",
                decimal_text(identity.rlm_depth as u64).as_str(),
                ", RLM_MAX_DEPTH=",
                decimal_text(identity.rlm_max_depth as u64).as_str(),
                ")",
            ),
        );
    }
    Ok(identity.rlm_depth + 1)
}

/// Whether `n` generations can be spawned below a session, one by the other:
/// a child has its parent's bound and is one level deeper.
pub open spec fn can_nest(depth: int, max_depth: int, n: nat) -> bool
    decreases n,
{
    n == 0 || match level_below(depth, max_depth) {
        Some(below) => can_nest(below, max_depth, (n - 1) as nat),
        None => false,
    }
}

/// Children nest no deeper than the bound: as many generations can be spawned
/// below a session as its bound leaves, and no more.
pub proof fn law_depth_is_bounded(depth: int, max_depth: int, n: nat)
    ensures
        can_nest(depth, max_depth, n) <==> n == 0 || depth + n <= max_depth,
    decreases n,
{
    if n > 0 {
        law_depth_is_bounded(depth + 1, max_depth, (n - 1) as nat);
    }
}

/// A model selector parted at its first slash, where it has one.
pub open spec fn selector_parts(model: Seq<char>) -> Option<(Seq<char>, Seq<char>)> {
    match find_from(model, "/"@, 0) {
        Some(at) => Some((model.take(at), model.skip(at + 1))),
        None => None,
    }
}

fn split_selector(model: &str) -> (r: Option<(String, String)>)
    ensures
        match r {
            Some((provider, id)) => selector_parts(model@) == Some((provider@, id@)),
            None => selector_parts(model@) is None,
        },
{
    let chars = chars_of(model);
    let slash = chars_of("/");
    let length: usize = chars.len();
    proof {
        reveal_strlit("/");
        assert(slash@.len() == 1);
    }
    match find_at(&chars, &slash, 0) {
        Some(at) => {
            let provider = text_of(&chars, 0, at);
            assert(at < length);
            let id = text_of(&chars, at + 1, length);
            assert(provider@ =~= model@.take(at as int));
            assert(id@ =~= model@.skip(at + 1));
            Some((provider, id))
        },
        None => None,
    }
}

/// A request for a child.
#[derive(Debug, PartialEq, Eq)]
pub struct ChildRequest {
    pub name: Option<String>,
    pub prompt: String,
    pub depth: u32,
    /// The resolved model selector.
    pub model: String,
    pub thinking: Option<String>,
    pub cwd: String,
    pub session_dir: String,
}

/// The thinking level of a child.
pub open spec fn handed_down(
    requested: Option<&str>,
    identity: ParentIdentity,
) -> Option<Seq<char>> {
    match requested {
        Some(level) => Some(level@),
        None => opt_text(identity.thinking),
    }
}

/// The thinking level of a child: the one that was asked for, else the one its
/// parent hands down.
pub fn child_thinking(requested: Option<&str>, identity: &ParentIdentity) -> (r: Option<String>)
    ensures
        opt_text(r) == handed_down(requested, *identity),
{
    match requested {
        Some(level) => Some(level.to_owned()),
        None => copy_opt(&identity.thinking),
    }
}

/// What a child is configured with.
pub open spec fn child_config(request: ChildRequest, identity: ParentIdentity) -> JsonView {
    let config = JsonView::object().field("cwd"@, JsonView::Str(request.cwd@)).field(
        "sessionDir"@,
        JsonView::Str(request.session_dir@),
    ).field("rlmDepth"@, JsonView::uint(request.depth as u64)).field(
        "rlmMaxDepth"@,
        JsonView::uint(identity.rlm_max_depth as u64),
    );
    let config = match selector_parts(request.model@) {
        Some((provider, id)) => config.field("provider"@, JsonView::Str(provider)).field(
            "model"@,
            JsonView::Str(id),
        ),
        None => config.field("model"@, JsonView::Str(request.model@)),
    };
    config.field_opt("thinking"@, opt_string(opt_text(request.thinking))).field_opt(
        "parentSessionPath"@,
        opt_string(opt_text(identity.session_file)),
    ).field_opt("script"@, opt_string(opt_text(identity.child_script)))
}

/// What a child is configured with.
pub fn child_config_value(request: &ChildRequest, identity: &ParentIdentity) -> (r: Json)
    ensures
        r@ == child_config(*request, *identity),
{
    let config = Json::object().field("cwd", Json::string(request.cwd.as_str())).field(
        "sessionDir",
        Json::string(request.session_dir.as_str()),
    ).field("rlmDepth", Json::uint(request.depth as u64)).field(
        "rlmMaxDepth",
        Json::uint(identity.rlm_max_depth as u64),
    );
    let config = match split_selector(request.model.as_str()) {
        Some((provider, id)) => config.field("provider", Json::string(provider.as_str())).field(
            "model",
            Json::string(id.as_str()),
        ),
        None => config.field("model", Json::string(request.model.as_str())),
    };
    config.field_opt_str("thinking", as_opt_str(&request.thinking)).field_opt_str(
        "parentSessionPath",
        as_opt_str(&identity.session_file),
    ).field_opt_str("script", as_opt_str(&identity.child_script))
}

/// What a child is told of itself: its id, its parent, its depth and the time.
pub open spec fn spawn_metadata(
    child_id: Seq<char>,
    parent_active_session_id: Seq<char>,
    depth: u32,
    now_ms: u64,
) -> JsonView {
    JsonView::object().field("kind"@, JsonView::Str("subagent"@)).field(
        "rlmChildId"@,
        JsonView::Str(child_id),
    ).field("parentActiveSessionId"@, JsonView::Str(parent_active_session_id)).field(
        "rlmDepth"@,
        JsonView::uint(depth as u64),
    ).field("createdAt"@, JsonView::uint(now_ms))
}

/// What a child is told of itself, with its parent's session, its prompt where
/// that is short, and its model.
pub open spec fn child_metadata(
    child_id: Seq<char>,
    parent_active_session_id: Seq<char>,
    now_ms: u64,
    request: ChildRequest,
    identity: ParentIdentity,
) -> JsonView {
    spawn_metadata(child_id, parent_active_session_id, request.depth, now_ms).field_opt(
        "parentSessionId"@,
        opt_string(opt_text(identity.session_id)),
    ).field_opt("parentSessionFile"@, opt_string(opt_text(identity.session_file))).field_opt(
        "prompt"@,
        if encode_utf8(request.prompt@).len() <= RUNTIME_METADATA_PROMPT_MAX {
            Some(JsonView::Str(request.prompt@))
        } else {
            None
        },
    ).field_opt(
        "model"@,
        match selector_parts(request.model@) {
            Some((provider, id)) => Some(
                JsonView::object().field("provider"@, JsonView::Str(provider)).field(
                    "modelId"@,
                    JsonView::Str(id),
                ),
            ),
            None => None,
        },
    )
}

/// What a child is told of itself.
pub fn child_metadata_value(
    child_id: &str,
    parent_active_session_id: &str,
    now_ms: u64,
    request: &ChildRequest,
    identity: &ParentIdentity,
) -> (r: Json)
    ensures
        r@ == child_metadata(child_id@, parent_active_session_id@, now_ms, *request, *identity),
{
    let prompt = if request.prompt.as_str().as_bytes().len() <= RUNTIME_METADATA_PROMPT_MAX {
        Some(request.prompt.as_str())
    } else {
        None
    };
    let model = match split_selector(request.model.as_str()) {
        Some((provider, id)) => Some(
            Json::object().field("provider", Json::string(provider.as_str())).field(
                "modelId",
                Json::string(id.as_str()),
            ),
        ),
        None => None,
    };
    Json::object().field("kind", Json::string("subagent")).field(
        "rlmChildId",
        Json::string(child_id),
    ).field("parentActiveSessionId", Json::string(parent_active_session_id)).field(
        "rlmDepth",
        Json::uint(request.depth as u64),
    ).field("createdAt", Json::uint(now_ms)).field_opt_str(
        "parentSessionId",
        as_opt_str(&identity.session_id),
    ).field_opt_str("parentSessionFile", as_opt_str(&identity.session_file)).field_opt_str(
        "prompt",
        prompt,
    ).field_opt("model", model)
}

/// The command that creates a child.
pub open spec fn create_json(
    name: Option<Seq<char>>,
    config: JsonView,
    metadata: Option<JsonView>,
) -> JsonView {
    JsonView::object().field("type"@, JsonView::Str("create"@)).field_opt(
        "name"@,
        opt_string(name),
    ).field("config"@, config).field_opt("runtimeMetadata"@, metadata).field(
        "lifecycle"@,
        JsonView::Str("resident"@),
    )
}

/// The command that creates a child: a subagent is told of itself, and a root
/// session is not.
pub fn launch_child(
    request: &ChildRequest,
    identity: &ParentIdentity,
    metadata: Option<Json>,
) -> (r: Json)
    ensures
        r@ == create_json(
            opt_text(request.name),
            child_config(*request, *identity),
            crate::json::opt_view(metadata),
        ),
{
    Json::object().field("type", Json::string("create")).field_opt_str(
        "name",
        as_opt_str(&request.name),
    ).field("config", child_config_value(request, identity)).field_opt(
        "runtimeMetadata",
        metadata,
    ).field("lifecycle", Json::string("resident"))
}

/// A command to one child.
pub open spec fn child_command_json(kind: Seq<char>, active_session_id: Seq<char>) -> JsonView {
    JsonView::object().field("type"@, JsonView::Str(kind)).field(
        "activeSessionId"@,
        JsonView::Str(active_session_id),
    )
}

/// A command to one child.
pub fn child_command(kind: &str, active_session_id: &str) -> (r: Json)
    ensures
        r@ == child_command_json(kind@, active_session_id@),
{
    Json::object().field("type", Json::string(kind)).field(
        "activeSessionId",
        Json::string(active_session_id),
    )
}

/// The command that prompts a child.
pub open spec fn prompt_json(active_session_id: Seq<char>, prompt: Seq<char>) -> JsonView {
    child_command_json("prompt"@, active_session_id).field(
        "message"@,
        JsonView::Str(prompt),
    ).field("source"@, JsonView::Str("rpc"@))
}

/// The command that prompts a child.
pub fn prompt_child(active_session_id: &str, prompt: &str) -> (r: Json)
    ensures
        r@ == prompt_json(active_session_id@, prompt@),
{
    child_command("prompt", active_session_id).field("message", Json::string(prompt)).field(
        "source",
        Json::string("rpc"),
    )
}

/// The command that kills a child to delete it.
pub open spec fn delete_json(record: ChildRecord) -> JsonView {
    child_command_json("kill"@, record.active_session_id@).field(
        "rlmLedgerDelete"@,
        JsonView::Str("user"@),
    ).field("rlmChildId"@, JsonView::Str(record.rlm_child_id@))
}

/// The command that kills a child to delete it.
pub fn delete_command(record: &ChildRecord) -> (r: Json)
    ensures
        r@ == delete_json(*record),
{
    child_command("kill", record.active_session_id.as_str()).field(
        "rlmLedgerDelete",
        Json::string("user"),
    ).field("rlmChildId", Json::string(record.rlm_child_id.as_str()))
}

/// A created child: its ids, its file and name, its directory, and the depth it
/// reports.
#[derive(Debug, PartialEq, Eq)]
pub struct CreatedChild {
    pub active_session_id: String,
    pub session_id: Option<String>,
    pub session_file: Option<String>,
    pub session_name: Option<String>,
    pub session_dir: String,
    pub summary_rlm_depth: Option<u64>,
}

/// The id that a summary names its session by.
pub open spec fn summary_id(summary: JsonView) -> Option<Seq<char>> {
    let id = match summary.get("activeSessionId"@) {
        Some(id) => id.as_str(),
        None => summary.get_str("id"@),
    };
    match id {
        Some(id) if id.len() > 0 => Some(id),
        _ => None,
    }
}

impl CreatedChild {
    /// Whether a child is the one of a summary.
    pub open spec fn is_created(
        result: Result<CreatedChild, String>,
        summary: JsonView,
        session_dir: Seq<char>,
    ) -> bool {
        match result {
            Ok(child) => summary_id(summary) == Some(child.active_session_id@) && opt_text(
                child.session_id,
            ) == summary.get_str("sessionId"@) && opt_text(child.session_file)
                == summary.get_str("sessionFile"@) && opt_text(child.session_name)
                == summary.get_str("sessionName"@) && child.session_dir@ == session_dir
                && child.summary_rlm_depth == summary.get_u64("rlmDepth"@),
            Err(message) => summary_id(summary) is None && message@
                == "supervisor returned a session summary without an id"@,
        }
    }

    /// Read a created child out of its summary; one without an id is refused.
    pub fn from_summary(summary: &Json, session_dir: &str) -> (r: Result<CreatedChild, String>)
        ensures
            Self::is_created(r, summary@, session_dir@),
    {
        let id = match summary.get("activeSessionId") {
            Some(id) => id.as_str(),
            None => summary.get_str("id"),
        };
        let active_session_id = match id {
            Some(id) => {
                if is_empty_text(id) {
                    return Err("supervisor returned a session summary without an id".to_owned());
                }
                id.to_owned()
            },
            None => {
                return Err("supervisor returned a session summary without an id".to_owned());
            },
        };
        Ok(
            CreatedChild {
                active_session_id,
                session_id: summary.get_string("sessionId"),
                session_file: summary.get_string("sessionFile"),
                session_name: summary.get_string("sessionName"),
                session_dir: session_dir.to_owned(),
                summary_rlm_depth: summary.get_u64("rlmDepth"),
            },
        )
    }
}

/// What becomes of a child that was created and prompted.
#[derive(Debug, PartialEq, Eq)]
pub enum PromptedChild {
    Keep(CreatedChild),
    /// Kill it, then fail with the error.
    Kill { active_session_id: String, error: String },
}

/// What becomes of a child that was created, by how its prompt went.
pub open spec fn after_prompt(created: CreatedChild, result: Result<(), String>) -> PromptedChild {
    match result {
        Ok(_) => PromptedChild::Keep(created),
        Err(error) => PromptedChild::Kill {
            active_session_id: created.active_session_id,
            error,
        },
    }
}

/// What becomes of a child that was created, by how its prompt went: one that
/// could not be prompted is killed again.
pub fn prompted_child(created: CreatedChild, prompted: Result<(), String>) -> (r: PromptedChild)
    ensures
        r == after_prompt(created, prompted),
{
    match prompted {
        Ok(_) => PromptedChild::Keep(created),
        Err(error) => PromptedChild::Kill { active_session_id: created.active_session_id, error },
    }
}

/// Whether a record is that of a child that was spawned.
pub open spec fn is_spawned(
    record: ChildRecord,
    child_id: Seq<char>,
    name: Seq<char>,
    created: CreatedChild,
    label: Seq<char>,
    now_ms: u64,
) -> bool {
    &&& record.rlm_child_id@ == child_id
    &&& record.session_name@ == match opt_text(created.session_name) {
        Some(session_name) => session_name,
        None => name,
    }
    &&& record.active_session_id == created.active_session_id
    &&& record.session_id == created.session_id
    &&& record.session_dir == created.session_dir
    &&& record.label@ == label
    &&& record.started_at_ms == now_ms
    &&& record.settled is None
    &&& record.answer_preview is None
    &&& !record.answer_captured
}

/// The record of a child that was spawned: it runs, under the name its session
/// has, else under the one it was given.
pub fn spawned_record(
    child_id: &str,
    name: &str,
    created: &CreatedChild,
    label: &str,
    now_ms: u64,
) -> (r: ChildRecord)
    ensures
        is_spawned(r, child_id@, name@, *created, label@, now_ms),
{
    ChildRecord {
        rlm_child_id: child_id.to_owned(),
        session_name: match &created.session_name {
            Some(session_name) => session_name.clone(),
            None => name.to_owned(),
        },
        active_session_id: created.active_session_id.clone(),
        session_id: copy_opt(&created.session_id),
        session_dir: created.session_dir.clone(),
        label: label.to_owned(),
        started_at_ms: now_ms,
        settled: None,
        answer_preview: None,
        answer_captured: false,
    }
}

/// Whether a child has work left: it streams, or something is queued.
pub open spec fn busy_state(state: JsonView) -> bool {
    let queued = match state.get("sessionActions"@) {
        Some(actions) => actions.get_u64("queuedCount"@),
        None => None,
    };
    state.get_bool("isStreaming"@) == Some(true) || (queued matches Some(n) && n > 0)
}

/// Whether a child has work left.
pub fn child_busy(state: &Json) -> (r: bool)
    ensures
        r == busy_state(state@),
{
    let queued: u64 = match state.get("sessionActions") {
        Some(actions) => match actions.get_u64("queuedCount") {
            Some(n) => n,
            None => 0,
        },
        None => 0,
    };
    state.get_bool("isStreaming") == Some(true) || queued > 0
}

/// The text of a child's answer, where it has one.
pub open spec fn answer_text(answer: JsonView) -> Option<Seq<char>> {
    match answer.get_str("text"@) {
        Some(text) if text.len() > 0 => Some(text),
        _ => None,
    }
}

/// The text of a child's answer, which is compacted for its preview.
pub fn child_text(answer: &Json) -> (r: Option<String>)
    ensures
        opt_text(r) == answer_text(answer@),
{
    match answer.get_str("text") {
        Some(text) => if is_empty_text(text) {
            None
        } else {
            Some(text.to_owned())
        },
        None => None,
    }
}

/// A child's answer as its preview shows it.
pub open spec fn preview_of(answer: JsonView, compacted: Seq<char>) -> Option<Seq<char>> {
    if answer_text(answer) is Some {
        Some(compacted)
    } else {
        None
    }
}

/// A child's answer, where it has one, as its preview shows it: the compacted
/// form of its text.
pub fn child_answer(answer: &Json, compacted: &str) -> (r: Option<String>)
    ensures
        opt_text(r) == preview_of(answer@, compacted@),
{
    match child_text(answer) {
        Some(_) => Some(compacted.to_owned()),
        None => None,
    }
}

// ---------------------------------------------------------------------------
// Root sessions
// ---------------------------------------------------------------------------

/// The working directory of a new root session: the one that was asked for,
/// below the creating session's own where it is relative, and else that one.
pub open spec fn root_cwd(requested: Option<Seq<char>>, own: Option<Seq<char>>) -> Seq<char> {
    let base = match own {
        Some(cwd) => cwd,
        None => "/"@,
    };
    match requested {
        Some(cwd) => joined(base, cwd),
        None => base,
    }
}

/// Whether a place, or its refusal, is where a new root session works.
pub open spec fn is_root_place(
    result: Result<String, String>,
    identity: ParentIdentity,
    requested_cwd: Option<Seq<char>>,
) -> bool {
    match result {
        Ok(cwd) => identity.rlm_depth == 0 && cwd@ == root_cwd(
            requested_cwd,
            opt_text(identity.cwd),
        ),
        Err(message) => identity.rlm_depth != 0 && message@
            == "rlm.create_session is available only from a depth-0 session"@,
    }
}

/// Where a new root session works, or why there is none: only a session at the
/// top creates one.
pub fn create_session(identity: &ParentIdentity, requested_cwd: Option<&str>) -> (r: Result<
    String,
    String,
>)
    ensures
        is_root_place(r, *identity, opt_str(requested_cwd)),
{
    if identity.rlm_depth != 0 {
        return Err("rlm.create_session is available only from a depth-0 session".to_owned());
    }
    let base = match &identity.cwd {
        Some(cwd) => cwd.clone(),
        None => "/".to_owned(),
    };
    Ok(
        match requested_cwd {
            Some(cwd) => join_path(base.as_str(), cwd),
            None => base,
        },
    )
}

/// What a new root session is known by.
#[derive(Debug, PartialEq, Eq)]
pub struct RlmCreateSessionHandle {
    pub active_session_id: String,
    pub session_id: String,
    pub name: String,
    pub session_file: String,
    pub model: String,
}

/// Whether a handle is what a new root session is known by.
pub open spec fn is_root_handle(
    result: Result<RlmCreateSessionHandle, String>,
    created: CreatedChild,
    model: Seq<char>,
) -> bool {
    match result {
        Ok(handle) => {
            &&& created.summary_rlm_depth is None || created.summary_rlm_depth == Some(0u64)
            &&& handle.active_session_id == created.active_session_id
            &&& handle.session_id@ == (match opt_text(created.session_id) {
                Some(id) => id,
                None => created.active_session_id@,
            })
            &&& handle.name@ == (match opt_text(created.session_name) {
                Some(name) => name,
                None => created.active_session_id@,
            })
            &&& handle.session_file@ == or_empty(opt_text(created.session_file))
            &&& handle.model@ == model
        },
        Err(message) => created.summary_rlm_depth is Some && created.summary_rlm_depth != Some(
            0u64,
        ) && message@ == "Daemon supervisor returned an invalid depth-0 session summary"@,
    }
}

/// What a new root session is known by; one that reports another depth is
/// refused.
pub fn root_session_handle(created: &CreatedChild, model: &str) -> (r: Result<
    RlmCreateSessionHandle,
    String,
>)
    ensures
        is_root_handle(r, *created, model@),
{
    match created.summary_rlm_depth {
        Some(depth) => {
            if depth != 0 {
                return Err(
                    "Daemon supervisor returned an invalid depth-0 session summary".to_owned(),
                );
            }
        },
        None => {},
    }
    Ok(
        RlmCreateSessionHandle {
            active_session_id: created.active_session_id.clone(),
            session_id: match &created.session_id {
                Some(id) => id.clone(),
                None => created.active_session_id.clone(),
            },
            name: match &created.session_name {
                Some(name) => name.clone(),
                None => created.active_session_id.clone(),
            },
            session_file: match &created.session_file {
                Some(file) => file.clone(),
                None => String::new(),
            },
            model: model.to_owned(),
        },
    )
}

} // verus!
