//! The supervisor's roster of agents: one entry per agent, found by agent id,
//! and indexes by active session and by session file that follow an agent
//! across restarts of its worker.
//!
//! A session file belongs to one agent. An agent that reports the file of
//! another one takes it over, and the other one's entry goes.
use vstd::hash_map::StringHashMap;
use vstd::prelude::*;

use crate::json::{Json, JsonView};
use crate::text::{copy_opt, is_empty_text, opt_str, opt_text, own_opt, same_text};

verus! {

/// How an agent is doing.
#[derive(Debug, Clone, Copy, PartialEq, Eq, Structural)]
pub enum AgentRosterStatus {
    Idle,
    Running,
    Completed,
    Failed,
}

/// One agent of the roster.
#[derive(Debug, PartialEq, Eq)]
pub struct AgentRosterEntry {
    pub agent_id: String,
    pub queued_child: Option<bool>,
    pub status: AgentRosterStatus,
    pub status_label: Option<String>,
    pub worker_id: Option<String>,
    pub summary: Json,
}

/// The mathematical entry behind an [`AgentRosterEntry`].
#[verifier::ext_equal]
pub struct RosterEntryView {
    pub agent_id: Seq<char>,
    pub queued_child: Option<bool>,
    pub status: AgentRosterStatus,
    pub status_label: Option<Seq<char>>,
    pub worker_id: Option<Seq<char>>,
    pub summary: JsonView,
}

impl View for AgentRosterEntry {
    type V = RosterEntryView;

    open spec fn view(&self) -> RosterEntryView {
        RosterEntryView {
            agent_id: self.agent_id@,
            queued_child: self.queued_child,
            status: self.status,
            status_label: opt_text(self.status_label),
            worker_id: opt_text(self.worker_id),
            summary: self.summary@,
        }
    }
}

impl RosterEntryView {
    /// The active session the entry reports, where it reports one.
    pub open spec fn active(self) -> Option<Seq<char>> {
        match self.summary.get_str("activeSessionId"@) {
            Some(id) if id.len() > 0 => Some(id),
            _ => None,
        }
    }

    /// The session file the entry reports, where it reports one.
    pub open spec fn file(self) -> Option<Seq<char>> {
        match self.summary.get_str("sessionFile"@) {
            Some(file) if file.len() > 0 => Some(file),
            _ => None,
        }
    }

    /// The key of the entry's session file, by the canonical forms of files.
    pub open spec fn key(self, forms: Map<Seq<char>, Seq<char>>) -> Option<Seq<char>> {
        match self.file() {
            Some(file) => Some(form_of(forms, file)),
            None => None,
        }
    }
}

impl AgentRosterEntry {
    /// A copy of the entry.
    pub fn copy(&self) -> (r: AgentRosterEntry)
        ensures
            r@ == self@,
    {
        AgentRosterEntry {
            agent_id: self.agent_id.clone(),
            queued_child: self.queued_child,
            status: self.status,
            status_label: copy_opt(&self.status_label),
            worker_id: copy_opt(&self.worker_id),
            summary: self.summary.duplicate(),
        }
    }

    fn active_id(&self) -> (r: Option<String>)
        ensures
            opt_text(r) == self@.active(),
    {
        match self.summary.get_str("activeSessionId") {
            Some(id) => if is_empty_text(id) {
                None
            } else {
                Some(id.to_owned())
            },
            None => None,
        }
    }

    /// The session file the entry reports, where it reports one.
    pub fn session_file(&self) -> (r: Option<String>)
        ensures
            opt_text(r) == self@.file(),
    {
        match self.summary.get_str("sessionFile") {
            Some(file) => if is_empty_text(file) {
                None
            } else {
                Some(file.to_owned())
            },
            None => None,
        }
    }

    fn file_key(&self, forms: &CanonicalFiles) -> (r: Option<String>)
        ensures
            opt_text(r) == self@.key(forms@),
    {
        match self.session_file() {
            Some(file) => Some(forms.form(file.as_str())),
            None => None,
        }
    }
}

/// The canonical form of a file, which is its path where none is known.
pub open spec fn form_of(forms: Map<Seq<char>, Seq<char>>, path: Seq<char>) -> Seq<char> {
    if forms.contains_key(path) {
        forms[path]
    } else {
        path
    }
}

/// The canonical forms of the files that exist, as they are at one time.
pub struct CanonicalFiles {
    forms: StringHashMap<String>,
}

impl View for CanonicalFiles {
    type V = Map<Seq<char>, Seq<char>>;

    closed spec fn view(&self) -> Map<Seq<char>, Seq<char>> {
        index_view(self.forms@)
    }
}

impl CanonicalFiles {
    /// No file exists.
    pub fn new() -> (r: CanonicalFiles)
        ensures
            r@ == Map::<Seq<char>, Seq<char>>::empty(),
    {
        let r = CanonicalFiles { forms: StringHashMap::new() };
        assert(r@ =~= Map::<Seq<char>, Seq<char>>::empty());
        r
    }

    /// Note that a file exists, and its canonical form.
    pub fn note(&mut self, path: String, canonical: String)
        ensures
            final(self)@ == old(self)@.insert(path@, canonical@),
    {
        let ghost key = path@;
        let ghost value = canonical@;
        self.forms.insert(path, canonical);
        assert(self@ =~= old(self)@.insert(key, value));
    }

    fn form(&self, path: &str) -> (r: String)
        ensures
            r@ == form_of(self@, path@),
    {
        match self.forms.get(path) {
            Some(canonical) => canonical_roster_path(path, Some(canonical.as_str())),
            None => canonical_roster_path(path, None),
        }
    }
}

/// What a worker reports of an agent: its id, how it is doing, its summary as it
/// came, the slim one that is kept, and the canonical path of the session file
/// in it.
#[derive(Debug, PartialEq, Eq)]
pub struct AgentReport {
    pub agent_id: String,
    pub status: AgentRosterStatus,
    pub full_summary: Json,
    pub summary: Json,
    pub canonical_file: Option<String>,
}

/// The canonical key of a session file.
pub open spec fn roster_key(path: Seq<char>, canonical: Option<&str>) -> Seq<char> {
    match canonical {
        Some(canonical) => canonical@,
        None => path,
    }
}

/// The canonical key of a session file: its canonical path, or the path as it
/// is where the file does not exist yet.
pub fn canonical_roster_path(path: &str, canonical: Option<&str>) -> (r: String)
    ensures
        r@ == roster_key(path@, canonical),
{
    match canonical {
        Some(canonical) => canonical.to_owned(),
        None => path.to_owned(),
    }
}

/// Whether a summary is that of a child that waits for its turn.
pub open spec fn says_queued(summary: JsonView) -> bool {
    summary.get_bool("queuedChild"@) == Some(true)
}

/// Whether a summary is that of a child that waits for its turn.
pub fn queued_child(summary: &Json) -> (r: bool)
    ensures
        r == says_queued(summary@),
{
    summary.get_bool("queuedChild") == Some(true)
}

/// The entry that a report makes. A queued child is labelled so.
pub open spec fn reported(
    report: AgentReport,
    worker_id: Option<Seq<char>>,
    status_label: Option<Seq<char>>,
) -> RosterEntryView {
    RosterEntryView {
        agent_id: report.agent_id@,
        queued_child: if says_queued(report.full_summary@) {
            Some(true)
        } else {
            None
        },
        status: report.status,
        status_label: if says_queued(report.full_summary@) {
            Some("queued"@)
        } else {
            status_label
        },
        worker_id,
        summary: report.summary@,
    }
}

/// The key of the session file that a report names: its canonical form, where
/// the file exists.
pub open spec fn reported_key(report: AgentReport) -> Option<Seq<char>> {
    match report.summary@.get_str("sessionFile"@) {
        Some(file) if file.len() > 0 => match report.canonical_file {
            Some(canonical) => Some(canonical@),
            None => Some(file),
        },
        _ => None,
    }
}

/// The roster: its entries in the order they came, and its two indexes.
pub struct AgentRoster {
    entries: Vec<AgentRosterEntry>,
    agent_id_by_active_session_id: StringHashMap<String>,
    agent_id_by_session_file: StringHashMap<String>,
}

/// The mathematical roster behind an [`AgentRoster`].
#[verifier::ext_equal]
pub struct RosterView {
    pub entries: Seq<RosterEntryView>,
    pub by_active: Map<Seq<char>, Seq<char>>,
    pub by_file: Map<Seq<char>, Seq<char>>,
}

/// The entries of a run, by value.
pub open spec fn roster_entries(entries: Seq<AgentRosterEntry>) -> Seq<RosterEntryView> {
    Seq::new(entries.len(), |i: int| entries[i]@)
}

/// An index, by value.
pub open spec fn index_view(index: Map<Seq<char>, String>) -> Map<Seq<char>, Seq<char>> {
    index.map_values(|agent: String| agent@)
}

impl View for AgentRoster {
    type V = RosterView;

    closed spec fn view(&self) -> RosterView {
        RosterView {
            entries: roster_entries(self.entries@),
            by_active: index_view(self.agent_id_by_active_session_id@),
            by_file: index_view(self.agent_id_by_session_file@),
        }
    }
}

/// The first position of an agent; the length where it is not there.
pub open spec fn agent_at(entries: Seq<RosterEntryView>, agent_id: Seq<char>) -> int
    decreases entries.len(),
{
    if entries.len() == 0 || entries[0].agent_id == agent_id {
        0
    } else {
        1 + agent_at(entries.drop_first(), agent_id)
    }
}

/// An index without an entry of it, where that entry points to the agent.
pub open spec fn unindexed(
    index: Map<Seq<char>, Seq<char>>,
    key: Option<Seq<char>>,
    agent_id: Seq<char>,
) -> Map<Seq<char>, Seq<char>> {
    if key is Some && index.contains_key(key->0) && index[key->0] == agent_id {
        index.remove(key->0)
    } else {
        index
    }
}

/// An index with an entry set, where there is a key for it.
pub open spec fn indexed(
    index: Map<Seq<char>, Seq<char>>,
    key: Option<Seq<char>>,
    agent_id: Seq<char>,
) -> Map<Seq<char>, Seq<char>> {
    match key {
        Some(key) => index.insert(key, agent_id),
        None => index,
    }
}

impl RosterView {
    pub open spec fn empty() -> RosterView {
        RosterView { entries: Seq::empty(), by_active: Map::empty(), by_file: Map::empty() }
    }

    /// The entry of an agent.
    pub open spec fn find(self, agent_id: Seq<char>) -> Option<RosterEntryView> {
        let at = agent_at(self.entries, agent_id);
        if 0 <= at < self.entries.len() {
            Some(self.entries[at])
        } else {
            None
        }
    }

    /// The roster without the index entries of an entry. Its file is looked up
    /// by the canonical form that it has now.
    pub open spec fn without_indexes(
        self,
        entry: RosterEntryView,
        forms: Map<Seq<char>, Seq<char>>,
    ) -> RosterView {
        RosterView {
            by_active: unindexed(self.by_active, entry.active(), entry.agent_id),
            by_file: unindexed(self.by_file, entry.key(forms), entry.agent_id),
            ..self
        }
    }

    /// The roster without an agent.
    pub open spec fn without(
        self,
        agent_id: Seq<char>,
        forms: Map<Seq<char>, Seq<char>>,
    ) -> RosterView {
        let at = agent_at(self.entries, agent_id);
        if 0 <= at < self.entries.len() {
            RosterView { entries: self.entries.remove(at), ..self }.without_indexes(
                self.entries[at],
                forms,
            )
        } else {
            self
        }
    }

    /// The roster with an entry set in its place, or appended.
    pub open spec fn with_entry(self, entry: RosterEntryView) -> RosterView {
        let at = agent_at(self.entries, entry.agent_id);
        RosterView {
            entries: if 0 <= at < self.entries.len() {
                self.entries.update(at, entry)
            } else {
                self.entries.push(entry)
            },
            ..self
        }
    }

    /// The roster without the old index entries of an agent.
    pub open spec fn cleared(
        self,
        agent_id: Seq<char>,
        forms: Map<Seq<char>, Seq<char>>,
    ) -> RosterView {
        match self.find(agent_id) {
            Some(previous) => self.without_indexes(previous, forms),
            None => self,
        }
    }

    /// The roster once another owner of a file is gone.
    pub open spec fn without_other_owner(
        self,
        key: Option<Seq<char>>,
        agent_id: Seq<char>,
        forms: Map<Seq<char>, Seq<char>>,
    ) -> RosterView {
        if key is Some && self.by_file.contains_key(key->0) && self.by_file[key->0] != agent_id {
            self.without(self.by_file[key->0], forms)
        } else {
            self
        }
    }

    /// The roster after an entry was written under the key of its file: the
    /// agent's old index entries go, then any other owner of its file, and then
    /// it is indexed and stored. What goes is looked up by the canonical forms
    /// that its files have now.
    pub open spec fn written(
        self,
        entry: RosterEntryView,
        key: Option<Seq<char>>,
        forms: Map<Seq<char>, Seq<char>>,
    ) -> RosterView {
        let owned = self.cleared(entry.agent_id, forms).without_other_owner(
            key,
            entry.agent_id,
            forms,
        );
        RosterView {
            by_active: indexed(owned.by_active, entry.active(), entry.agent_id),
            by_file: indexed(owned.by_file, key, entry.agent_id),
            ..owned
        }.with_entry(entry)
    }

    /// Whether each agent has one entry, and each active session leads to an
    /// agent that reports it.
    pub open spec fn sound(self) -> bool {
        &&& forall|i: int, j: int|
            0 <= i < self.entries.len() && 0 <= j < self.entries.len() && i != j ==> (
            #[trigger] self.entries[i]).agent_id != (#[trigger] self.entries[j]).agent_id
        &&& forall|key: Seq<char>| #[trigger]
            self.by_active.contains_key(key) ==> exists|i: int|
                0 <= i < self.entries.len() && (#[trigger] self.entries[i]).agent_id
                    == self.by_active[key] && self.entries[i].active() == Some(key)
    }

    /// Whether the roster is sound and, by the canonical forms of files, each
    /// file has one owner that is indexed under it, and each file that is
    /// indexed leads to an agent that reports it.
    pub open spec fn inv(self, forms: Map<Seq<char>, Seq<char>>) -> bool {
        &&& self.sound()
        &&& forall|i: int|
            0 <= i < self.entries.len() && (#[trigger] self.entries[i]).key(forms) is Some
                ==> self.by_file.contains_key(self.entries[i].key(forms)->0)
                && self.by_file[self.entries[i].key(forms)->0] == self.entries[i].agent_id
        &&& forall|key: Seq<char>| #[trigger]
            self.by_file.contains_key(key) ==> exists|i: int|
                0 <= i < self.entries.len() && (#[trigger] self.entries[i]).agent_id
                    == self.by_file[key] && self.entries[i].key(forms) == Some(key)
    }
}

proof fn lemma_agent_at(entries: Seq<RosterEntryView>, agent_id: Seq<char>)
    ensures
        0 <= agent_at(entries, agent_id) <= entries.len(),
        agent_at(entries, agent_id) < entries.len() ==> entries[agent_at(
            entries,
            agent_id,
        )].agent_id == agent_id,
        forall|j: int|
            0 <= j < agent_at(entries, agent_id) ==> (#[trigger] entries[j]).agent_id != agent_id,
    decreases entries.len(),
{
    if entries.len() > 0 && entries[0].agent_id != agent_id {
        let rest = entries.drop_first();
        lemma_agent_at(rest, agent_id);
        let at = agent_at(entries, agent_id);
        assert forall|j: int| 0 <= j < at implies (#[trigger] entries[j]).agent_id != agent_id by {
            if j > 0 {
                assert(rest[j - 1] == entries[j]);
            }
        }
        if at < entries.len() {
            assert(rest[at - 1] == entries[at]);
        }
    }
}

proof fn lemma_agent_at_is(entries: Seq<RosterEntryView>, agent_id: Seq<char>, at: int)
    requires
        0 <= at <= entries.len(),
        at < entries.len() ==> entries[at].agent_id == agent_id,
        forall|j: int| 0 <= j < at ==> (#[trigger] entries[j]).agent_id != agent_id,
    ensures
        agent_at(entries, agent_id) == at,
{
    lemma_agent_at(entries, agent_id);
    let found = agent_at(entries, agent_id);
    if found < at {
        assert(entries[found].agent_id == agent_id);
    }
    if at < found {
        assert(entries[at].agent_id == agent_id);
    }
}

fn drop_index(index: &mut StringHashMap<String>, key: &Option<String>, agent_id: &str)
    ensures
        index_view(final(index)@) == unindexed(index_view(old(index)@), opt_text(*key), agent_id@),
{
    match key {
        Some(key) => {
            let owned = match index.get(key.as_str()) {
                Some(owner) => same_text(owner.as_str(), agent_id),
                None => false,
            };
            if owned {
                index.remove(key.as_str());
                assert(index_view(index@) =~= index_view(old(index)@).remove(key@));
            }
        },
        None => {},
    }
}

fn set_index(index: &mut StringHashMap<String>, key: &Option<String>, agent_id: &str)
    ensures
        index_view(final(index)@) == indexed(index_view(old(index)@), opt_text(*key), agent_id@),
{
    match key {
        Some(key) => {
            index.insert(key.clone(), agent_id.to_owned());
            assert(index_view(index@) =~= index_view(old(index)@).insert(key@, agent_id@));
        },
        None => {},
    }
}

impl AgentRoster {
    /// A roster without agents.
    pub fn new() -> (r: AgentRoster)
        ensures
            r@ == RosterView::empty(),
    {
        let r = AgentRoster {
            entries: Vec::new(),
            agent_id_by_active_session_id: StringHashMap::new(),
            agent_id_by_session_file: StringHashMap::new(),
        };
        assert(r@ =~= RosterView::empty());
        r
    }

    fn position(&self, agent_id: &str) -> (r: usize)
        ensures
            r == agent_at(self@.entries, agent_id@),
            r <= self.entries@.len(),
            self@.entries == roster_entries(self.entries@),
    {
        let ghost all = self@.entries;
        let mut i: usize = 0;
        while i < self.entries.len()
            invariant
                i <= self.entries@.len(),
                all == roster_entries(self.entries@),
                all == self@.entries,
                forall|j: int| 0 <= j < i ==> (#[trigger] all[j]).agent_id != agent_id@,
            decreases self.entries@.len() - i,
        {
            if same_text(self.entries[i].agent_id.as_str(), agent_id) {
                proof {
                    assert(all[i as int].agent_id == agent_id@);
                    lemma_agent_at_is(all, agent_id@, i as int);
                }
                return i;
            }
            i = i + 1;
        }
        proof {
            lemma_agent_at_is(all, agent_id@, i as int);
        }
        i
    }

    fn drop_indexes(&mut self, entry: &AgentRosterEntry, forms: &CanonicalFiles)
        ensures
            final(self)@ == old(self)@.without_indexes(entry@, forms@),
    {
        let active = entry.active_id();
        let key = entry.file_key(forms);
        drop_index(&mut self.agent_id_by_active_session_id, &active, entry.agent_id.as_str());
        drop_index(&mut self.agent_id_by_session_file, &key, entry.agent_id.as_str());
        assert(self@ =~= old(self)@.without_indexes(entry@, forms@));
    }

    /// Drop an agent and its index entries; one that is not there changes
    /// nothing. The forms are those that files have now.
    pub fn delete(&mut self, agent_id: &str, forms: &CanonicalFiles)
        ensures
            final(self)@ == old(self)@.without(agent_id@, forms@),
    {
        let at = self.position(agent_id);
        if at >= self.entries.len() {
            return;
        }
        let ghost before = self@;
        let entry = self.entries.remove(at);
        assert(self@ =~= (RosterView { entries: before.entries.remove(at as int), ..before }));
        self.drop_indexes(&entry, forms);
    }

    /// The entry of an agent.
    pub fn get(&self, agent_id: &str) -> (r: Option<&AgentRosterEntry>)
        ensures
            match r {
                Some(entry) => self@.find(agent_id@) == Some(entry@),
                None => self@.find(agent_id@) is None,
            },
    {
        let at = self.position(agent_id);
        if at < self.entries.len() {
            Some(&self.entries[at])
        } else {
            None
        }
    }

    /// Write what a worker reports of an agent, and give the entry back. The
    /// forms are those that files have now.
    pub fn write_summary(
        &mut self,
        report: AgentReport,
        worker_id: Option<&str>,
        status_label: Option<&str>,
        forms: &CanonicalFiles,
    ) -> (r: AgentRosterEntry)
        ensures
            r@ == reported(report, opt_str(worker_id), opt_str(status_label)),
            final(self)@ == old(self)@.written(
                reported(report, opt_str(worker_id), opt_str(status_label)),
                reported_key(report),
                forms@,
            ),
    {
        let key: Option<String> = match report.summary.get_str("sessionFile") {
            Some(file) => if is_empty_text(file) {
                None
            } else {
                Some(
                    canonical_roster_path(file, crate::text::as_opt_str(&report.canonical_file)),
                )
            },
            None => None,
        };
        let queued = queued_child(&report.full_summary);
        let stored = AgentRosterEntry {
            agent_id: report.agent_id,
            queued_child: if queued {
                Some(true)
            } else {
                None
            },
            status: report.status,
            status_label: if queued {
                Some("queued".to_owned())
            } else {
                own_opt(status_label)
            },
            worker_id: own_opt(worker_id),
            summary: report.summary,
        };
        let ghost entry = stored@;
        let ghost file = opt_text(key);
        let ghost start = self@;
        let at = self.position(stored.agent_id.as_str());
        if at < self.entries.len() {
            let previous = self.entries[at].copy();
            self.drop_indexes(&previous, forms);
        }
        let ghost cleared = self@;
        assert(cleared == start.cleared(entry.agent_id, forms@));
        let other: Option<String> = match &key {
            Some(key) => match self.agent_id_by_session_file.get(key.as_str()) {
                Some(owner) => if same_text(owner.as_str(), stored.agent_id.as_str()) {
                    None
                } else {
                    Some(owner.clone())
                },
                None => None,
            },
            None => None,
        };
        match &other {
            Some(owner) => {
                self.delete(owner.as_str(), forms);
            },
            None => {},
        }
        let ghost owned = self@;
        assert(owned == cleared.without_other_owner(file, entry.agent_id, forms@));
        let active = stored.active_id();
        set_index(&mut self.agent_id_by_session_file, &key, stored.agent_id.as_str());
        set_index(
            &mut self.agent_id_by_active_session_id,
            &active,
            stored.agent_id.as_str(),
        );
        let ghost ready = self@;
        assert(ready =~= (RosterView {
            by_active: indexed(owned.by_active, entry.active(), entry.agent_id),
            by_file: indexed(owned.by_file, file, entry.agent_id),
            ..owned
        }));
        let copy = stored.copy();
        let at = self.position(stored.agent_id.as_str());
        if at < self.entries.len() {
            self.entries[at] = stored;
            assert(self@ =~= ready.with_entry(entry));
        } else {
            self.entries.push(stored);
            assert(self@ =~= ready.with_entry(entry));
        }
        copy
    }

    /// All entries, in the order they came.
    pub fn entries(&self) -> (r: Vec<AgentRosterEntry>)
        ensures
            roster_entries(r@) == self@.entries,
    {
        let mut out: Vec<AgentRosterEntry> = Vec::new();
        let mut i: usize = 0;
        while i < self.entries.len()
            invariant
                i <= self.entries@.len(),
                self@.entries == roster_entries(self.entries@),
                out@.len() == i,
                forall|j: int| 0 <= j < i ==> (#[trigger] out@[j])@ == self.entries@[j]@,
            decreases self.entries@.len() - i,
        {
            out.push(self.entries[i].copy());
            i = i + 1;
        }
        assert(roster_entries(out@) =~= self@.entries);
        out
    }

    /// The entries of a worker, in the order they came.
    pub fn entries_for_worker(&self, worker_id: &str) -> (r: Vec<AgentRosterEntry>)
        ensures
            roster_entries(r@) == of_worker(self@.entries, worker_id@),
    {
        let ghost all = self@.entries;
        let mut out: Vec<AgentRosterEntry> = Vec::new();
        let mut i: usize = 0;
        assert(roster_entries(out@) =~= of_worker(all.take(0), worker_id@));
        while i < self.entries.len()
            invariant
                i <= self.entries@.len(),
                all == roster_entries(self.entries@),
                roster_entries(out@) == of_worker(all.take(i as int), worker_id@),
            decreases self.entries@.len() - i,
        {
            let ghost before = roster_entries(out@);
            assert(all.take(i + 1).drop_last() =~= all.take(i as int));
            assert(all.take(i + 1).last() == all[i as int]);
            let mine = match &self.entries[i].worker_id {
                Some(id) => same_text(id.as_str(), worker_id),
                None => false,
            };
            if mine {
                let entry = self.entries[i].copy();
                out.push(entry);
                assert(roster_entries(out@) =~= before.push(all[i as int]));
            }
            i = i + 1;
        }
        assert(all.take(i as int) =~= all);
        out
    }
}

/// The entries of a worker.
pub open spec fn of_worker(entries: Seq<RosterEntryView>, worker_id: Seq<char>) -> Seq<
    RosterEntryView,
>
    decreases entries.len(),
{
    if entries.len() == 0 {
        Seq::empty()
    } else {
        let before = of_worker(entries.drop_last(), worker_id);
        if entries.last().worker_id == Some(worker_id) {
            before.push(entries.last())
        } else {
            before
        }
    }
}

/// The place in a run of the entry that is at `i` once the one at `at` is gone.
spec fn old_place(at: int, i: int) -> int {
    if i < at {
        i
    } else {
        i + 1
    }
}

/// Dropping an agent keeps the roster sound, and the agent is gone, however its
/// file's canonical form has changed; dropping it again changes nothing.
pub proof fn law_deleted_agents_are_gone(
    roster: RosterView,
    agent_id: Seq<char>,
    forms: Map<Seq<char>, Seq<char>>,
    later: Map<Seq<char>, Seq<char>>,
)
    requires
        roster.sound(),
    ensures
        roster.without(agent_id, forms).sound(),
        roster.without(agent_id, forms).find(agent_id) is None,
        roster.without(agent_id, forms).without(agent_id, later) == roster.without(agent_id, forms),
{
    lemma_agent_at(roster.entries, agent_id);
    let at = agent_at(roster.entries, agent_id);
    let after = roster.without(agent_id, forms);
    if at < roster.entries.len() {
        lemma_removed(roster, agent_id, forms);
        assert forall|key: Seq<char>| #[trigger] after.by_active.contains_key(key) implies exists|
            i: int,
        |
            0 <= i < after.entries.len() && (#[trigger] after.entries[i]).agent_id
                == after.by_active[key] && after.entries[i].active() == Some(key) by {
            assert(roster.by_active.contains_key(key));
            let a = choose|a: int|
                0 <= a < roster.entries.len() && (#[trigger] roster.entries[a]).agent_id
                    == roster.by_active[key] && roster.entries[a].active() == Some(key);
            assert(a != at);
            let i = if a < at {
                a
            } else {
                a - 1
            };
            assert(after.entries[i] == roster.entries[old_place(at, i)]);
        }
        lemma_agent_at_is(after.entries, agent_id, after.entries.len() as int);
    }
}

proof fn lemma_removed(
    roster: RosterView,
    agent_id: Seq<char>,
    forms: Map<Seq<char>, Seq<char>>,
)
    requires
        roster.sound(),
        agent_at(roster.entries, agent_id) < roster.entries.len(),
    ensures
        roster.without(agent_id, forms).entries.len() == roster.entries.len() - 1,
        forall|i: int|
            0 <= i < roster.entries.len() - 1 ==> (#[trigger] roster.without(
                agent_id,
                forms,
            ).entries[i]) == roster.entries[old_place(agent_at(roster.entries, agent_id), i)]
                && roster.without(agent_id, forms).entries[i].agent_id != agent_id,
        forall|i: int, j: int|
            0 <= i < roster.entries.len() - 1 && 0 <= j < roster.entries.len() - 1 && i != j ==> (
            #[trigger] roster.without(agent_id, forms).entries[i]).agent_id != (
            #[trigger] roster.without(agent_id, forms).entries[j]).agent_id,
{
    lemma_agent_at(roster.entries, agent_id);
    let at = agent_at(roster.entries, agent_id);
    let after = roster.without(agent_id, forms);
    assert(after.entries =~= roster.entries.remove(at));
    assert forall|i: int| 0 <= i < after.entries.len() implies (#[trigger] after.entries[i])
        == roster.entries[old_place(at, i)] && after.entries[i].agent_id != agent_id by {
        assert(roster.entries[old_place(at, i)].agent_id != roster.entries[at].agent_id);
    }
    assert forall|i: int, j: int|
        0 <= i < after.entries.len() && 0 <= j < after.entries.len() && i != j implies (
    #[trigger] after.entries[i]).agent_id != (#[trigger] after.entries[j]).agent_id by {
        assert(roster.entries[old_place(at, i)].agent_id != roster.entries[old_place(
            at,
            j,
        )].agent_id);
    }
}

/// Dropping an agent keeps the roster in order, where the canonical forms of
/// files do not change.
pub proof fn law_delete_keeps_order(
    roster: RosterView,
    agent_id: Seq<char>,
    forms: Map<Seq<char>, Seq<char>>,
)
    requires
        roster.inv(forms),
    ensures
        roster.without(agent_id, forms).inv(forms),
{
    law_deleted_agents_are_gone(roster, agent_id, forms, forms);
    lemma_agent_at(roster.entries, agent_id);
    let at = agent_at(roster.entries, agent_id);
    let after = roster.without(agent_id, forms);
    if at < roster.entries.len() {
        lemma_removed(roster, agent_id, forms);
        assert forall|i: int|
            0 <= i < after.entries.len() && (#[trigger] after.entries[i]).key(
                forms,
            ) is Some implies after.by_file.contains_key(after.entries[i].key(forms)->0)
            && after.by_file[after.entries[i].key(forms)->0] == after.entries[i].agent_id by {
            assert(after.entries[i] == roster.entries[old_place(at, i)]);
        }
        assert forall|key: Seq<char>| #[trigger] after.by_file.contains_key(key) implies exists|
            i: int,
        |
            0 <= i < after.entries.len() && (#[trigger] after.entries[i]).agent_id
                == after.by_file[key] && after.entries[i].key(forms) == Some(key) by {
            assert(roster.by_file.contains_key(key));
            let a = choose|a: int|
                0 <= a < roster.entries.len() && (#[trigger] roster.entries[a]).agent_id
                    == roster.by_file[key] && roster.entries[a].key(forms) == Some(key);
            assert(a != at);
            let i = if a < at {
                a
            } else {
                a - 1
            };
            assert(after.entries[i] == roster.entries[old_place(at, i)]);
        }
    }
}

/// Whether a roster is sound but for one agent, none of whose active sessions
/// are indexed.
spec fn sound_but(roster: RosterView, agent_id: Seq<char>) -> bool {
    &&& roster.sound()
    &&& forall|key: Seq<char>| #[trigger]
        roster.by_active.contains_key(key) ==> roster.by_active[key] != agent_id
}

/// Whether the files of a roster are in order but for one agent, none of whose
/// files are indexed.
spec fn files_but(
    roster: RosterView,
    agent_id: Seq<char>,
    forms: Map<Seq<char>, Seq<char>>,
) -> bool {
    &&& forall|i: int|
        0 <= i < roster.entries.len() && (#[trigger] roster.entries[i]).agent_id != agent_id
            && roster.entries[i].key(forms) is Some ==> roster.by_file.contains_key(
            roster.entries[i].key(forms)->0,
        ) && roster.by_file[roster.entries[i].key(forms)->0] == roster.entries[i].agent_id
    &&& forall|key: Seq<char>| #[trigger]
        roster.by_file.contains_key(key) ==> roster.by_file[key] != agent_id && exists|i: int|
            0 <= i < roster.entries.len() && (#[trigger] roster.entries[i]).agent_id
                == roster.by_file[key] && roster.entries[i].key(forms) == Some(key)
}

proof fn lemma_cleared_sound(
    roster: RosterView,
    agent_id: Seq<char>,
    forms: Map<Seq<char>, Seq<char>>,
)
    requires
        roster.sound(),
    ensures
        sound_but(roster.cleared(agent_id, forms), agent_id),
{
    lemma_agent_at(roster.entries, agent_id);
    let at = agent_at(roster.entries, agent_id);
    let cleared = roster.cleared(agent_id, forms);
    assert(cleared.entries == roster.entries);
    assert forall|key: Seq<char>| #[trigger]
        cleared.by_active.contains_key(key) implies cleared.by_active[key] != agent_id && exists|
        i: int,
    |
        0 <= i < cleared.entries.len() && (#[trigger] cleared.entries[i]).agent_id
            == cleared.by_active[key] && cleared.entries[i].active() == Some(key) by {
        assert(roster.by_active.contains_key(key));
        let a = choose|a: int|
            0 <= a < roster.entries.len() && (#[trigger] roster.entries[a]).agent_id
                == roster.by_active[key] && roster.entries[a].active() == Some(key);
        assert(cleared.entries[a] == roster.entries[a]);
        if roster.entries[a].agent_id == agent_id {
            assert(at < roster.entries.len());
            assert(a == at);
        }
    }
}

proof fn lemma_cleared_files(
    roster: RosterView,
    agent_id: Seq<char>,
    forms: Map<Seq<char>, Seq<char>>,
)
    requires
        roster.inv(forms),
    ensures
        files_but(roster.cleared(agent_id, forms), agent_id, forms),
{
    lemma_agent_at(roster.entries, agent_id);
    let at = agent_at(roster.entries, agent_id);
    let cleared = roster.cleared(agent_id, forms);
    assert(cleared.entries == roster.entries);
    assert forall|key: Seq<char>| #[trigger]
        cleared.by_file.contains_key(key) implies cleared.by_file[key] != agent_id && exists|
        i: int,
    |
        0 <= i < cleared.entries.len() && (#[trigger] cleared.entries[i]).agent_id
            == cleared.by_file[key] && cleared.entries[i].key(forms) == Some(key) by {
        assert(roster.by_file.contains_key(key));
        let a = choose|a: int|
            0 <= a < roster.entries.len() && (#[trigger] roster.entries[a]).agent_id
                == roster.by_file[key] && roster.entries[a].key(forms) == Some(key);
        assert(cleared.entries[a] == roster.entries[a]);
        if roster.entries[a].agent_id == agent_id {
            assert(at < roster.entries.len());
            assert(a == at);
        }
    }
    assert forall|i: int|
        0 <= i < cleared.entries.len() && (#[trigger] cleared.entries[i]).agent_id != agent_id
            && cleared.entries[i].key(forms) is Some implies cleared.by_file.contains_key(
        cleared.entries[i].key(forms)->0,
    ) && cleared.by_file[cleared.entries[i].key(forms)->0] == cleared.entries[i].agent_id by {
        assert(cleared.entries[i] == roster.entries[i]);
    }
}

proof fn lemma_evicted_files(
    roster: RosterView,
    agent_id: Seq<char>,
    other: Seq<char>,
    forms: Map<Seq<char>, Seq<char>>,
)
    requires
        roster.sound(),
        files_but(roster, agent_id, forms),
        other != agent_id,
    ensures
        files_but(roster.without(other, forms), agent_id, forms),
        forall|key: Seq<char>| #[trigger]
            roster.without(other, forms).by_file.contains_key(key) ==> roster.without(
                other,
                forms,
            ).by_file[key] == roster.by_file[key] && roster.by_file[key] != other,
{
    lemma_agent_at(roster.entries, other);
    let at = agent_at(roster.entries, other);
    let after = roster.without(other, forms);
    if at < roster.entries.len() {
        lemma_removed(roster, other, forms);
        assert forall|i: int|
            0 <= i < after.entries.len() && (#[trigger] after.entries[i]).agent_id != agent_id
                && after.entries[i].key(forms) is Some implies after.by_file.contains_key(
            after.entries[i].key(forms)->0,
        ) && after.by_file[after.entries[i].key(forms)->0] == after.entries[i].agent_id by {
            assert(after.entries[i] == roster.entries[old_place(at, i)]);
        }
    }
    assert forall|key: Seq<char>| #[trigger]
        after.by_file.contains_key(key) implies after.by_file[key] == roster.by_file[key]
        && roster.by_file[key] != other && after.by_file[key] != agent_id && exists|i: int|
        0 <= i < after.entries.len() && (#[trigger] after.entries[i]).agent_id
            == after.by_file[key] && after.entries[i].key(forms) == Some(key) by {
        assert(roster.by_file.contains_key(key));
        let a = choose|a: int|
            0 <= a < roster.entries.len() && (#[trigger] roster.entries[a]).agent_id
                == roster.by_file[key] && roster.entries[a].key(forms) == Some(key);
        if at < roster.entries.len() {
            assert(a != at);
            let i = if a < at {
                a
            } else {
                a - 1
            };
            assert(after.entries[i] == roster.entries[old_place(at, i)]);
        } else {
            assert(roster.entries[a].agent_id != other);
        }
    }
}

proof fn lemma_owned_sound(
    roster: RosterView,
    key: Option<Seq<char>>,
    agent_id: Seq<char>,
    forms: Map<Seq<char>, Seq<char>>,
)
    requires
        roster.sound(),
    ensures
        sound_but(
            roster.cleared(agent_id, forms).without_other_owner(key, agent_id, forms),
            agent_id,
        ),
{
    lemma_cleared_sound(roster, agent_id, forms);
    let cleared = roster.cleared(agent_id, forms);
    let owned = cleared.without_other_owner(key, agent_id, forms);
    if key is Some && cleared.by_file.contains_key(key->0) && cleared.by_file[key->0] != agent_id {
        law_deleted_agents_are_gone(cleared, cleared.by_file[key->0], forms, forms);
        assert forall|active: Seq<char>| #[trigger]
            owned.by_active.contains_key(active) implies owned.by_active[active] != agent_id by {
            assert(cleared.by_active.contains_key(active));
        }
    }
}

proof fn lemma_stored(
    owned: RosterView,
    entry: RosterEntryView,
    key: Option<Seq<char>>,
    forms: Map<Seq<char>, Seq<char>>,
    roster: RosterView,
)
    requires
        sound_but(owned, entry.agent_id),
        owned == roster.cleared(entry.agent_id, forms).without_other_owner(
            key,
            entry.agent_id,
            forms,
        ),
    ensures
        ({
            let after = roster.written(entry, key, forms);
            let at = agent_at(owned.entries, entry.agent_id);
            &&& 0 <= at < after.entries.len()
            &&& after.entries[at] == entry
            &&& agent_at(after.entries, entry.agent_id) == at
            &&& owned.entries.len() <= after.entries.len()
            &&& forall|i: int|
                0 <= i < after.entries.len() && i != at ==> (#[trigger] after.entries[i])
                    == owned.entries[i] && i < owned.entries.len() && after.entries[i].agent_id
                    != entry.agent_id
        }),
{
    let id = entry.agent_id;
    let after = roster.written(entry, key, forms);
    lemma_agent_at(owned.entries, id);
    let at = agent_at(owned.entries, id);
    assert forall|i: int| 0 <= i < owned.entries.len() && i != at implies (
    #[trigger] owned.entries[i]).agent_id != id by {
        if at < owned.entries.len() {
            assert(owned.entries[at].agent_id == id);
        }
    }
    assert forall|i: int| 0 <= i < after.entries.len() && i != at implies (
    #[trigger] after.entries[i]) == owned.entries[i] && i < owned.entries.len()
        && after.entries[i].agent_id != id by {
        assert(owned.entries[i].agent_id != id);
    }
    lemma_agent_at_is(after.entries, id, at);
}

/// Writing an entry keeps the roster sound, and the entry can be found under its
/// agent id, whatever key it is written under and however the canonical forms of
/// files have changed.
pub proof fn law_written_agents_are_found(
    roster: RosterView,
    entry: RosterEntryView,
    key: Option<Seq<char>>,
    forms: Map<Seq<char>, Seq<char>>,
)
    requires
        roster.sound(),
    ensures
        roster.written(entry, key, forms).sound(),
        roster.written(entry, key, forms).find(entry.agent_id) == Some(entry),
{
    let id = entry.agent_id;
    let owned = roster.cleared(id, forms).without_other_owner(key, id, forms);
    lemma_owned_sound(roster, key, id, forms);
    lemma_stored(owned, entry, key, forms, roster);
    let after = roster.written(entry, key, forms);
    lemma_agent_at(owned.entries, id);
    let at = agent_at(owned.entries, id);
    assert forall|i: int, j: int|
        0 <= i < after.entries.len() && 0 <= j < after.entries.len() && i != j implies (
    #[trigger] after.entries[i]).agent_id != (#[trigger] after.entries[j]).agent_id by {
        if i != at && j != at {
            assert(owned.entries[i].agent_id != owned.entries[j].agent_id);
        }
    }
    assert forall|active: Seq<char>| #[trigger] after.by_active.contains_key(active) implies exists|
        i: int,
    |
        0 <= i < after.entries.len() && (#[trigger] after.entries[i]).agent_id
            == after.by_active[active] && after.entries[i].active() == Some(active) by {
        if entry.active() == Some(active) {
            assert(after.entries[at].agent_id == after.by_active[active]);
        } else {
            assert(owned.by_active.contains_key(active));
            let i = choose|i: int|
                0 <= i < owned.entries.len() && (#[trigger] owned.entries[i]).agent_id
                    == owned.by_active[active] && owned.entries[i].active() == Some(active);
            assert(i != at);
            assert(after.entries[i] == owned.entries[i]);
        }
    }
}

/// Writing an entry under the key of its file keeps the roster in order, and no
/// other agent holds its session file any more, where the canonical forms of
/// files do not change.
pub proof fn law_write_converges(
    roster: RosterView,
    entry: RosterEntryView,
    forms: Map<Seq<char>, Seq<char>>,
    other: Seq<char>,
)
    requires
        roster.inv(forms),
    ensures
        roster.written(entry, entry.key(forms), forms).inv(forms),
        entry.key(forms) is Some && other != entry.agent_id && roster.written(
            entry,
            entry.key(forms),
            forms,
        ).find(other) is Some ==> roster.written(entry, entry.key(forms), forms).find(
            other,
        )->0.key(forms) != entry.key(forms),
        entry.key(forms) is Some && roster.by_file.contains_key(entry.key(forms)->0) && other
            == roster.by_file[entry.key(forms)->0] && other != entry.agent_id ==> roster.written(
            entry,
            entry.key(forms),
            forms,
        ).find(other) is None,
{
    let id = entry.agent_id;
    let key = entry.key(forms);
    law_written_agents_are_found(roster, entry, key, forms);
    let cleared = roster.cleared(id, forms);
    lemma_cleared_sound(roster, id, forms);
    lemma_cleared_files(roster, id, forms);
    let owned = cleared.without_other_owner(key, id, forms);
    lemma_owned_sound(roster, key, id, forms);
    if key is Some && cleared.by_file.contains_key(key->0) && cleared.by_file[key->0] != id {
        lemma_evicted_files(cleared, id, cleared.by_file[key->0], forms);
    }
    assert(files_but(owned, id, forms));
    lemma_stored(owned, entry, key, forms, roster);
    let after = roster.written(entry, key, forms);
    lemma_agent_at(owned.entries, id);
    let at = agent_at(owned.entries, id);
    assert forall|i: int| 0 <= i < after.entries.len() && i != at && key is Some implies (
    #[trigger] after.entries[i]).key(forms) != key by {
        assert(after.entries[i] == owned.entries[i]);
        if owned.entries[i].key(forms) == key {
            assert(owned.by_file.contains_key(key->0));
            assert(owned.by_file[key->0] == owned.entries[i].agent_id);
        }
    }
    assert forall|i: int|
        0 <= i < after.entries.len() && (#[trigger] after.entries[i]).key(
            forms,
        ) is Some implies after.by_file.contains_key(after.entries[i].key(forms)->0)
        && after.by_file[after.entries[i].key(forms)->0] == after.entries[i].agent_id by {
        if i != at {
            assert(after.entries[i] == owned.entries[i]);
        }
    }
    assert forall|file: Seq<char>| #[trigger] after.by_file.contains_key(file) implies exists|
        i: int,
    |
        0 <= i < after.entries.len() && (#[trigger] after.entries[i]).agent_id
            == after.by_file[file] && after.entries[i].key(forms) == Some(file) by {
        if key == Some(file) {
            assert(after.entries[at].agent_id == after.by_file[file]);
        } else {
            assert(owned.by_file.contains_key(file));
            let i = choose|i: int|
                0 <= i < owned.entries.len() && (#[trigger] owned.entries[i]).agent_id
                    == owned.by_file[file] && owned.entries[i].key(forms) == Some(file);
            assert(i != at);
            assert(after.entries[i] == owned.entries[i]);
        }
    }
    if other != id {
        lemma_agent_at(after.entries, other);
        let b = agent_at(after.entries, other);
        if b < after.entries.len() {
            assert(b != at);
            assert(after.entries[b] == owned.entries[b]);
            if key is Some && roster.by_file.contains_key(key->0) && other
                == roster.by_file[key->0] {
                assert(cleared.by_file.contains_key(key->0));
                law_deleted_agents_are_gone(cleared, other, forms, forms);
                lemma_agent_at(owned.entries, other);
                assert(owned.find(other) is None);
                assert(owned.entries[b].agent_id == other);
            }
        }
    }
}

/// The empty roster is in order.
pub proof fn law_empty_roster_is_in_order(forms: Map<Seq<char>, Seq<char>>)
    ensures
        RosterView::empty().inv(forms),
{
}

} // verus!
