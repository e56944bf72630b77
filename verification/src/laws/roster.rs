//! Laws of the roster of agents.
use vstd::prelude::*;

use crate::agent_roster::{
    agent_at, form_of, indexed, of_worker, reported, reported_key, roster_key, says_queued,
    unindexed, AgentReport, RosterEntryView, RosterView,
};

verus! {

/// An entry says what the worker reported: the agent, how it is doing, its worker and
/// its summary; a child that waits is labelled so whatever else it was called.
pub proof fn law_entries_say_what_was_reported(
    report: AgentReport,
    worker: Option<Seq<char>>,
    label: Option<Seq<char>>,
)
    ensures
        ({
            let entry = reported(report, worker, label);
            &&& entry.agent_id == report.agent_id@
            &&& entry.status == report.status
            &&& entry.worker_id == worker
            &&& entry.summary == report.summary@
            &&& says_queued(report.full_summary@) ==> entry.status_label == Some("queued"@)
                && entry.queued_child == Some(true)
            &&& !says_queued(report.full_summary@) ==> entry.status_label == label
                && entry.queued_child is None
        }),
        says_queued(report.full_summary@) <==> report.full_summary@.get_bool("queuedChild"@)
            == Some(true),
{
}

/// A file is keyed by its canonical form where it exists, else by its path; a report
/// without a file has no key.
pub proof fn law_files_are_keyed_by_their_form(
    report: AgentReport,
    forms: Map<Seq<char>, Seq<char>>,
    path: Seq<char>,
)
    ensures
        ({
            let file = report.summary@.get_str("sessionFile"@);
            &&& file is None || file->0.len() == 0 ==> reported_key(report) is None
            &&& file is Some && file->0.len() > 0 ==> (report.canonical_file matches Some(canonical)
                ==> reported_key(report) == Some(canonical@)) && (report.canonical_file is None
                ==> reported_key(report) == file)
        }),
        forms.contains_key(path) ==> form_of(forms, path) == forms[path],
        !forms.contains_key(path) ==> form_of(forms, path) == path,
{
}

/// A key leads to the agent it was last set for, and is dropped only for its own
/// agent; every other key is left alone.
pub proof fn law_keys_lead_to_their_agent(
    index: Map<Seq<char>, Seq<char>>,
    key: Seq<char>,
    agent: Seq<char>,
    other: Seq<char>,
)
    requires
        other != key,
    ensures
        indexed(index, Some(key), agent).contains_key(key) && indexed(index, Some(key), agent)[key]
            == agent,
        indexed(index, Some(key), agent).contains_key(other) == index.contains_key(other),
        indexed(index, None, agent) == index,
        index.contains_key(key) && index[key] == agent ==> !unindexed(
            index,
            Some(key),
            agent,
        ).contains_key(key),
        index.contains_key(key) && index[key] != agent ==> unindexed(index, Some(key), agent)
            == index,
        unindexed(index, Some(key), agent).contains_key(other) == index.contains_key(other),
        unindexed(index, None, agent) == index,
{
}

/// The agents of a worker are all its entries, in order, and no other's.
pub proof fn law_workers_list_their_agents(entries: Seq<RosterEntryView>, worker: Seq<char>)
    ensures
        of_worker(entries, worker) == entries.filter(
            |entry: RosterEntryView| entry.worker_id == Some(worker),
        ),
    decreases entries.len(),
{
    reveal(Seq::filter);
    if entries.len() > 0 {
        law_workers_list_their_agents(entries.drop_last(), worker);
    }
}

/// An agent is found by its own id, at its first entry.
pub proof fn law_agents_are_found_by_id(entries: Seq<RosterEntryView>, agent: Seq<char>)
    ensures
        0 <= agent_at(entries, agent) <= entries.len(),
        agent_at(entries, agent) < entries.len() ==> entries[agent_at(entries, agent)].agent_id
            == agent,
        forall|j: int|
            0 <= j < agent_at(entries, agent) ==> (#[trigger] entries[j]).agent_id != agent,
    decreases entries.len(),
{
    if entries.len() > 0 && entries[0].agent_id != agent {
        let rest = entries.drop_first();
        law_agents_are_found_by_id(rest, agent);
        let at = agent_at(entries, agent);
        if at < entries.len() {
            assert(rest[at - 1] == entries[at]);
        }
        assert forall|j: int| 0 <= j < at implies (#[trigger] entries[j]).agent_id != agent by {
            if j > 0 {
                assert(rest[j - 1] == entries[j]);
            }
        }
    }
}

/// Writing or dropping an agent leaves every other agent's entry as it was, but for
/// the one whose file it takes over.
pub proof fn law_other_agents_stay(
    roster: RosterView,
    agent: Seq<char>,
    other: Seq<char>,
    forms: Map<Seq<char>, Seq<char>>,
)
    requires
        roster.sound(),
        other != agent,
    ensures
        roster.without(agent, forms).find(other) == roster.find(other),
{
    law_agents_are_found_by_id(roster.entries, agent);
    law_agents_are_found_by_id(roster.entries, other);
    let at = agent_at(roster.entries, agent);
    let b = agent_at(roster.entries, other);
    let after = roster.without(agent, forms);
    if at < roster.entries.len() {
        assert(after.entries == roster.entries.remove(at));
        law_agents_are_found_by_id(after.entries, other);
        let c = agent_at(after.entries, other);
        if c < after.entries.len() {
            let place = if c < at {
                c
            } else {
                c + 1
            };
            assert(after.entries[c] == roster.entries[place]);
            if b < place {
                assert(roster.entries[b].agent_id == other);
            }
            if place < b {
                assert(roster.entries[place].agent_id != other);
            }
            assert(place == b);
        } else if b < roster.entries.len() {
            let place = if b < at {
                b
            } else {
                b - 1
            };
            assert(b != at);
            assert(after.entries[place] == roster.entries[b]);
            assert(after.entries[place].agent_id == other);
        }
    }
}

/// A session file is keyed by its canonical path, and by the path as it is while there is
/// no such file.
pub proof fn law_files_are_keyed_by_their_canonical_path(path: Seq<char>, canonical: &str)
    ensures
        roster_key(path, Some(canonical)) == canonical@,
        roster_key(path, None) == path,
{
}

} // verus!
