//! The windowed session store: a store opened on the tail of its file, and its
//! upgrade to the full history.
//!
//! The window is a read optimization only. An upgrade installs a parse of the
//! whole file and keeps what the live store appended while the parse ran; a
//! parse that was started for another store is dropped.
use vstd::prelude::*;

use crate::json::{Json, JsonView};
use crate::text::{opt_text, same_text};

verus! {

/// One entry of a session file.
#[derive(Debug, PartialEq, Eq)]
pub struct SessionEntry {
    pub id: String,
    pub parent_id: Option<String>,
    pub type_: String,
    pub fields: Json,
}

/// The mathematical entry behind a [`SessionEntry`].
#[verifier::ext_equal]
pub struct EntryView {
    pub id: Seq<char>,
    pub parent_id: Option<Seq<char>>,
    pub type_: Seq<char>,
    pub fields: JsonView,
}

impl View for SessionEntry {
    type V = EntryView;

    open spec fn view(&self) -> EntryView {
        EntryView {
            id: self.id@,
            parent_id: opt_text(self.parent_id),
            type_: self.type_@,
            fields: self.fields@,
        }
    }
}

impl SessionEntry {
    /// A copy of the entry.
    pub fn copy(&self) -> (r: SessionEntry)
        ensures
            r@ == self@,
    {
        SessionEntry {
            id: self.id.clone(),
            parent_id: crate::text::copy_opt(&self.parent_id),
            type_: self.type_.clone(),
            fields: self.fields.duplicate(),
        }
    }
}

/// The header of a session file.
#[derive(Debug, PartialEq, Eq)]
pub struct SessionHeader {
    pub id: String,
    pub cwd: String,
    pub rlm_depth: Option<u64>,
}

/// The mathematical header behind a [`SessionHeader`].
#[verifier::ext_equal]
pub struct HeaderView {
    pub id: Seq<char>,
    pub cwd: Seq<char>,
    pub rlm_depth: Option<u64>,
}

impl View for SessionHeader {
    type V = HeaderView;

    open spec fn view(&self) -> HeaderView {
        HeaderView { id: self.id@, cwd: self.cwd@, rlm_depth: self.rlm_depth }
    }
}

/// The window of a store that was opened on the tail of its file.
#[derive(Debug, PartialEq, Eq)]
pub struct WindowInfo {
    /// How many entries were held at open.
    pub window_entries: usize,
    /// How many bytes of the file the window covers.
    pub window_bytes: u64,
    /// The compaction cut the window was taken at, where there is one.
    pub boundary_entry_id: Option<String>,
    /// The oldest held entry.
    pub oldest_entry_id: Option<String>,
    /// What tells this window from every other one.
    pub generation: u64,
}

/// A session store: its entries in file order, its leaf, its window where it
/// has one, and how many of its entries are on disk.
#[derive(Debug, PartialEq, Eq)]
pub struct SessionFile {
    pub path: String,
    pub header: SessionHeader,
    pub entries: Vec<SessionEntry>,
    pub leaf_id: Option<String>,
    pub window: Option<WindowInfo>,
    pub persisted_entries: usize,
}

/// The mathematical store behind a [`SessionFile`].
#[verifier::ext_equal]
pub struct StoreView {
    pub path: Seq<char>,
    pub header: HeaderView,
    pub entries: Seq<EntryView>,
    pub leaf_id: Option<Seq<char>>,
    pub window: Option<WindowInfo>,
    pub persisted_entries: usize,
}

/// The entries of a run, by value.
pub open spec fn entries_view(entries: Seq<SessionEntry>) -> Seq<EntryView> {
    Seq::new(entries.len(), |i: int| entries[i]@)
}

impl View for SessionFile {
    type V = StoreView;

    open spec fn view(&self) -> StoreView {
        StoreView {
            path: self.path@,
            header: self.header@,
            entries: entries_view(self.entries@),
            leaf_id: opt_text(self.leaf_id),
            window: self.window,
            persisted_entries: self.persisted_entries,
        }
    }
}

/// Whether a run of entries holds an id.
pub open spec fn holds_id(entries: Seq<EntryView>, id: Seq<char>) -> bool {
    exists|i: int| 0 <= i < entries.len() && (#[trigger] entries[i]).id == id
}

/// The entries of `live` whose ids `full` does not hold, in order.
pub open spec fn missing_from(live: Seq<EntryView>, full: Seq<EntryView>) -> Seq<EntryView>
    decreases live.len(),
{
    if live.len() == 0 {
        Seq::empty()
    } else {
        let before = missing_from(live.drop_last(), full);
        if holds_id(full, live.last().id) {
            before
        } else {
            before.push(live.last())
        }
    }
}

/// The store with entries appended; the last of them is its leaf.
pub open spec fn with_entries(store: StoreView, more: Seq<EntryView>) -> StoreView {
    StoreView {
        entries: store.entries + more,
        leaf_id: if more.len() > 0 {
            Some(more.last().id)
        } else {
            store.leaf_id
        },
        ..store
    }
}

impl SessionFile {
    /// Whether the store holds an entry of this id.
    pub fn holds(&self, id: &str) -> (r: bool)
        ensures
            r == holds_id(self@.entries, id@),
    {
        let ghost all = self@.entries;
        let mut i: usize = 0;
        while i < self.entries.len()
            invariant
                i <= self.entries@.len(),
                all == entries_view(self.entries@),
                forall|j: int| 0 <= j < i ==> (#[trigger] all[j]).id != id@,
            decreases self.entries@.len() - i,
        {
            if same_text(self.entries[i].id.as_str(), id) {
                assert(all[i as int].id == id@);
                return true;
            }
            i = i + 1;
        }
        false
    }

    /// Append an entry, which becomes the leaf.
    pub fn push_index(&mut self, entry: SessionEntry)
        ensures
            final(self)@ == with_entries(old(self)@, seq![entry@]),
    {
        self.leaf_id = Some(entry.id.clone());
        self.entries.push(entry);
        assert(self@.entries =~= old(self)@.entries + seq![entry@]);
    }

    /// A windowed store of the entries its window holds, oldest first. All of
    /// them came from disk.
    pub fn from_window_parts(
        path: String,
        header: SessionHeader,
        entries: Vec<SessionEntry>,
        window: WindowInfo,
    ) -> (r: SessionFile)
        ensures
            r@ == (StoreView {
                path: path@,
                header: header@,
                entries: entries_view(entries@),
                leaf_id: if entries@.len() > 0 {
                    Some(entries@.last().id@)
                } else {
                    None
                },
                window: Some(window),
                persisted_entries: entries@.len() as usize,
            }),
    {
        let n = entries.len();
        let leaf_id = if n > 0 {
            Some(entries[n - 1].id.clone())
        } else {
            None
        };
        SessionFile { path, header, entries, leaf_id, window: Some(window), persisted_entries: n }
    }

    /// The window, where the store has one; a store without one holds the full
    /// history.
    pub fn window_info(&self) -> (r: Option<&WindowInfo>)
        ensures
            match r {
                Some(window) => self@.window == Some(*window),
                None => self@.window is None,
            },
    {
        match &self.window {
            Some(window) => Some(window),
            None => None,
        }
    }

    /// Whether this is what an upgrade of a store parses.
    pub open spec fn is_upgrade(store: StoreView, result: Option<(String, u64)>) -> bool {
        match result {
            Some((path, generation)) => store.window is Some && path@ == store.path
                && generation == store.window->0.generation,
            None => store.window is None,
        }
    }

    /// What an upgrade parses, and for which window: none where the store holds
    /// the full history already.
    pub fn begin_full_history_upgrade(&self) -> (r: Option<(String, u64)>)
        ensures
            Self::is_upgrade(self@, r),
    {
        match &self.window {
            Some(window) => Some((self.path.clone(), window.generation)),
            None => None,
        }
    }

    /// Take note that every entry is on disk.
    pub fn mark_persisted(&mut self)
        ensures
            final(self)@ == (StoreView {
                persisted_entries: old(self)@.entries.len() as usize,
                ..old(self)@
            }),
    {
        self.persisted_entries = self.entries.len();
    }

    /// Whether a parse is installed in the store that it was started for.
    pub open spec fn is_finished(
        before: StoreView,
        after: StoreView,
        installed: bool,
        full: StoreView,
        generation: u64,
    ) -> bool {
        &&& installed == (before.window is Some && before.window->0.generation == generation)
        &&& !installed ==> after == before
        &&& installed ==> after == upgraded(before, full)
    }

    /// Install a parse of the whole file. It is dropped where the store has no
    /// window or another one than the parse was started for; otherwise the store
    /// becomes the parsed one, with the entries that the parse does not hold
    /// appended.
    pub fn finish_full_history_upgrade(&mut self, full: SessionFile, generation: u64) -> (r: bool)
        ensures
            Self::is_finished(old(self)@, final(self)@, r, full@, generation),
    {
        match &self.window {
            Some(window) => {
                if window.generation != generation {
                    return false;
                }
            },
            None => {
                return false;
            },
        }
        let ghost live = self@.entries;
        let ghost parsed = full@.entries;
        let mut appended: Vec<SessionEntry> = Vec::new();
        let mut i: usize = 0;
        assert(entries_view(appended@) =~= missing_from(live.take(0), parsed));
        while i < self.entries.len()
            invariant
                i <= self.entries@.len(),
                *self == *old(self),
                live == entries_view(self.entries@),
                parsed == full@.entries,
                entries_view(appended@) == missing_from(live.take(i as int), parsed),
            decreases self.entries@.len() - i,
        {
            let ghost before = entries_view(appended@);
            assert(live.take(i + 1).drop_last() =~= live.take(i as int));
            assert(live.take(i + 1).last() == live[i as int]);
            if !full.holds(self.entries[i].id.as_str()) {
                let entry = self.entries[i].copy();
                appended.push(entry);
                assert(entries_view(appended@) =~= before.push(live[i as int]));
            }
            i = i + 1;
        }
        assert(live.take(i as int) =~= live);
        let ghost more = missing_from(live, parsed);
        let ghost full_view = full@;
        *self = full;
        self.window = None;
        let n = appended.len();
        if n > 0 {
            assert(more.last() == appended@[n - 1]@);
            self.leaf_id = Some(appended[n - 1].id.clone());
        }
        self.entries.append(&mut appended);
        assert(self@.entries =~= full_view.entries + more);
        self.persisted_entries = self.entries.len();
        true
    }

    /// Whether a store is upgraded by a parse of its file, where it is windowed.
    pub open spec fn is_ensured(
        before: StoreView,
        after: StoreView,
        did: bool,
        full: StoreView,
    ) -> bool {
        &&& did == (before.window is Some)
        &&& after == if before.window is Some {
            upgraded(before, full)
        } else {
            before
        }
    }

    /// Upgrade the store by a parse of its file, where it is windowed; a store
    /// with the full history stays as it is.
    pub fn ensure_full_history(&mut self, full: SessionFile) -> (r: bool)
        ensures
            Self::is_ensured(old(self)@, final(self)@, r, full@),
    {
        match self.begin_full_history_upgrade() {
            Some((_, generation)) => self.finish_full_history_upgrade(full, generation),
            None => false,
        }
    }
}

/// A store upgraded by a parse of its file.
pub open spec fn upgraded(live: StoreView, full: StoreView) -> StoreView {
    let whole = with_entries(full, missing_from(live.entries, full.entries));
    StoreView { window: None, persisted_entries: whole.entries.len() as usize, ..whole }
}

proof fn lemma_missing_from(live: Seq<EntryView>, full: Seq<EntryView>, id: Seq<char>)
    ensures
        holds_id(missing_from(live, full), id) <==> holds_id(live, id) && !holds_id(full, id),
        missing_from(live, full).len() <= live.len(),
    decreases live.len(),
{
    if live.len() > 0 {
        let rest = live.drop_last();
        let before = missing_from(rest, full);
        let after = missing_from(live, full);
        lemma_missing_from(rest, full, id);
        if holds_id(live, id) && !holds_id(full, id) {
            let k = choose|k: int| 0 <= k < live.len() && (#[trigger] live[k]).id == id;
            if k < rest.len() {
                assert(rest[k].id == id);
                let m = choose|m: int| 0 <= m < before.len() && (#[trigger] before[m]).id == id;
                assert(after[m].id == id);
            } else {
                assert(after[after.len() - 1].id == id);
            }
        }
        if holds_id(after, id) {
            let m = choose|m: int| 0 <= m < after.len() && (#[trigger] after[m]).id == id;
            if m < before.len() {
                assert(before[m].id == id);
                let k = choose|k: int| 0 <= k < rest.len() && (#[trigger] rest[k]).id == id;
                assert(live[k].id == id);
            } else {
                assert(live[live.len() - 1].id == id);
            }
        }
    }
}

/// An upgrade loses no entry: afterwards the store holds exactly the ids that
/// the live store or the parse held, the parsed entries first and in their
/// order, and is fully on disk.
pub proof fn law_upgrade_loses_nothing(live: StoreView, full: StoreView, id: Seq<char>)
    requires
        full.entries.len() + live.entries.len() <= usize::MAX,
    ensures
        holds_id(upgraded(live, full).entries, id) <==> holds_id(live.entries, id) || holds_id(
            full.entries,
            id,
        ),
        upgraded(live, full).entries.take(full.entries.len() as int) == full.entries,
        upgraded(live, full).window is None,
        upgraded(live, full).persisted_entries == upgraded(live, full).entries.len(),
{
    lemma_missing_from(live.entries, full.entries, id);
    let more = missing_from(live.entries, full.entries);
    let whole = upgraded(live, full).entries;
    assert(whole =~= full.entries + more);
    assert(whole.take(full.entries.len() as int) =~= full.entries);
    if holds_id(full.entries, id) {
        let k = choose|k: int|
            0 <= k < full.entries.len() && (#[trigger] full.entries[k]).id == id;
        assert(whole[k].id == id);
    }
    if holds_id(more, id) {
        let k = choose|k: int| 0 <= k < more.len() && (#[trigger] more[k]).id == id;
        assert(whole[full.entries.len() + k].id == id);
    }
    if holds_id(whole, id) {
        let k = choose|k: int| 0 <= k < whole.len() && (#[trigger] whole[k]).id == id;
        if k < full.entries.len() {
            assert(full.entries[k].id == id);
        } else {
            assert(more[k - full.entries.len()].id == id);
        }
    }
}

/// An upgrade by a parse that already holds everything installs the parse as
/// it is, leaf and all; entries appended while the parse ran come last, and the
/// newest of them is the leaf.
pub proof fn law_upgrade_absorbs_the_live_tail(live: StoreView, full: StoreView)
    ensures
        (forall|i: int| 0 <= i < live.entries.len() ==> holds_id(full.entries, (#[trigger] live.entries[i]).id))
            ==> upgraded(live, full).entries == full.entries && upgraded(live, full).leaf_id
            == full.leaf_id,
        live.entries.len() > 0 && !holds_id(full.entries, live.entries.last().id) ==> upgraded(
            live,
            full,
        ).leaf_id == Some(live.entries.last().id),
{
    if forall|i: int| 0 <= i < live.entries.len() ==> holds_id(full.entries, (#[trigger] live.entries[i]).id) {
        lemma_nothing_missing(live.entries, full.entries);
        assert(full.entries + missing_from(live.entries, full.entries) =~= full.entries);
    }
}

proof fn lemma_nothing_missing(live: Seq<EntryView>, full: Seq<EntryView>)
    requires
        forall|i: int| 0 <= i < live.len() ==> holds_id(full, (#[trigger] live[i]).id),
    ensures
        missing_from(live, full).len() == 0,
    decreases live.len(),
{
    if live.len() > 0 {
        let rest = live.drop_last();
        assert forall|i: int| 0 <= i < rest.len() implies holds_id(full, (#[trigger] rest[i]).id) by {
            assert(rest[i] == live[i]);
        }
        lemma_nothing_missing(rest, full);
        assert(holds_id(full, live[live.len() - 1].id));
    }
}

} // verus!
