//! A session's own token usage, folded out of its file.
//!
//! Every assistant entry counts with its usage block. An attribution of child
//! spend replaces its target's block by the latest aggregate and adds the child
//! block to what is taken off at the end, so a child's spend stays on the
//! child's own row. Summaries of the conversation add their own blocks. Each
//! block carries the number of its cost; the costs are added up where they are
//! kept, in the order that [`UsageScan::cost_plan`] gives.
use vstd::prelude::*;

use crate::text::{is_text, opt_str, same_text};

verus! {

/// The usage of one model call: its token counts, and the number under which
/// its cost is kept.
#[derive(Debug, Clone, Copy, PartialEq, Eq, Structural)]
pub struct Usage {
    pub input: u64,
    pub output: u64,
    pub cache_read: u64,
    pub cache_write: u64,
    pub cost: u64,
}

/// Token counts.
#[verifier::ext_equal]
pub struct Tokens {
    pub input: nat,
    pub output: nat,
    pub cache_read: nat,
    pub cache_write: nat,
}

impl Tokens {
    pub open spec fn none() -> Tokens {
        Tokens { input: 0, output: 0, cache_read: 0, cache_write: 0 }
    }

    pub open spec fn plus(self, usage: Usage) -> Tokens {
        Tokens {
            input: self.input + usage.input as nat,
            output: self.output + usage.output as nat,
            cache_read: self.cache_read + usage.cache_read as nat,
            cache_write: self.cache_write + usage.cache_write as nat,
        }
    }

    pub open spec fn and(self, other: Tokens) -> Tokens {
        Tokens {
            input: self.input + other.input,
            output: self.output + other.output,
            cache_read: self.cache_read + other.cache_read,
            cache_write: self.cache_write + other.cache_write,
        }
    }

    /// What is left when `other` is taken off, each count not below zero.
    pub open spec fn less(self, other: Tokens) -> Tokens {
        Tokens {
            input: floor_sub(self.input, other.input),
            output: floor_sub(self.output, other.output),
            cache_read: floor_sub(self.cache_read, other.cache_read),
            cache_write: floor_sub(self.cache_write, other.cache_write),
        }
    }

    /// Whether every count, and all input together, fits a machine word.
    pub open spec fn fit(self) -> bool {
        &&& self.input + self.cache_read + self.cache_write <= u64::MAX
        &&& self.output <= u64::MAX
    }
}

/// A difference, not below zero.
pub open spec fn floor_sub(a: nat, b: nat) -> nat {
    if a > b {
        (a - b) as nat
    } else {
        0
    }
}

/// The tokens of a run of blocks.
pub open spec fn tokens_of(blocks: Seq<Usage>) -> Tokens
    decreases blocks.len(),
{
    if blocks.len() == 0 {
        Tokens::none()
    } else {
        tokens_of(blocks.drop_last()).plus(blocks.last())
    }
}

/// The summary that rows publish: all input, cached or not, and the output.
#[derive(Debug, Clone, Copy, PartialEq, Eq, Structural)]
pub struct SessionUsageSummary {
    pub input_tokens: u64,
    pub output_tokens: u64,
}

/// The summary of token counts, given whether their cost is zero: none where
/// there was no billable work at all.
pub open spec fn summary_of(tokens: Tokens, cost_is_zero: bool) -> Option<SessionUsageSummary> {
    let input = tokens.input + tokens.cache_read + tokens.cache_write;
    if input == 0 && tokens.output == 0 && cost_is_zero {
        None
    } else {
        Some(
            SessionUsageSummary {
                input_tokens: input as u64,
                output_tokens: tokens.output as u64,
            },
        )
    }
}

/// The summary of one usage block, given whether its cost is zero.
pub fn session_usage_summary_from(usage: &Usage, cost_is_zero: bool) -> (r: Option<
    SessionUsageSummary,
>)
    requires
        usage.input + usage.cache_read + usage.cache_write <= u64::MAX,
    ensures
        r == summary_of(Tokens::none().plus(*usage), cost_is_zero),
{
    let input_tokens = usage.input + usage.cache_read + usage.cache_write;
    if input_tokens == 0 && usage.output == 0 && cost_is_zero {
        None
    } else {
        Some(SessionUsageSummary { input_tokens, output_tokens: usage.output })
    }
}

/// The fold so far: the assistant blocks by entry id in the order of their
/// first occurrence, the attributed child blocks, and the summarization
/// blocks.
#[derive(Debug, PartialEq, Eq)]
pub struct UsageScan {
    assistant: Vec<(String, Usage)>,
    children: Vec<Usage>,
    summarizations: Vec<Usage>,
}

/// The mathematical fold behind a [`UsageScan`].
#[verifier::ext_equal]
pub struct ScanView {
    pub assistant: Seq<(Seq<char>, Usage)>,
    pub children: Seq<Usage>,
    pub summarizations: Seq<Usage>,
}

/// The assistant blocks of a fold, by value.
pub open spec fn keyed_view(assistant: Seq<(String, Usage)>) -> Seq<(Seq<char>, Usage)> {
    Seq::new(assistant.len(), |i: int| (assistant[i].0@, assistant[i].1))
}

impl View for UsageScan {
    type V = ScanView;

    closed spec fn view(&self) -> ScanView {
        ScanView {
            assistant: keyed_view(self.assistant@),
            children: self.children@,
            summarizations: self.summarizations@,
        }
    }
}

/// Whether a fold holds a block for an entry.
pub open spec fn holds_entry(assistant: Seq<(Seq<char>, Usage)>, id: Seq<char>) -> bool {
    exists|i: int| 0 <= i < assistant.len() && (#[trigger] assistant[i]).0 == id
}

/// The blocks with the one of an entry set: in its place where it is there,
/// else at the end.
pub open spec fn set_block(
    assistant: Seq<(Seq<char>, Usage)>,
    id: Seq<char>,
    usage: Usage,
) -> Seq<(Seq<char>, Usage)>
    decreases assistant.len(),
{
    if assistant.len() == 0 {
        seq![(id, usage)]
    } else if assistant[0].0 == id {
        assistant.update(0, (id, usage))
    } else {
        seq![assistant[0]] + set_block(assistant.drop_first(), id, usage)
    }
}

/// The blocks without their ids.
pub open spec fn blocks_of(assistant: Seq<(Seq<char>, Usage)>) -> Seq<Usage> {
    Seq::new(assistant.len(), |i: int| assistant[i].1)
}

/// One entry of a session file, as far as the fold reads it.
#[derive(Debug, PartialEq, Eq)]
pub struct ScanEntry {
    pub type_: String,
    pub id: String,
    pub role: Option<String>,
    pub message_usage: Option<Usage>,
    pub usage: Option<Usage>,
    pub target_id: Option<String>,
    pub child_usage: Option<Usage>,
    pub aggregate_usage: Option<Usage>,
}

impl ScanView {
    pub open spec fn empty() -> ScanView {
        ScanView {
            assistant: Seq::empty(),
            children: Seq::empty(),
            summarizations: Seq::empty(),
        }
    }

    /// A message: only an assistant's with a usage block counts.
    pub open spec fn with_message(
        self,
        id: Seq<char>,
        role: Option<Seq<char>>,
        usage: Option<Usage>,
    ) -> ScanView {
        if role == Some("assistant"@) && usage is Some {
            ScanView { assistant: set_block(self.assistant, id, usage->0), ..self }
        } else {
            self
        }
    }

    /// An attribution: it counts only where it is whole and its target is
    /// there.
    pub open spec fn with_attribution(
        self,
        target: Option<Seq<char>>,
        child: Option<Usage>,
        aggregate: Option<Usage>,
    ) -> ScanView {
        if target is Some && child is Some && aggregate is Some && holds_entry(
            self.assistant,
            target->0,
        ) {
            ScanView {
                assistant: set_block(self.assistant, target->0, aggregate->0),
                children: self.children.push(child->0),
                ..self
            }
        } else {
            self
        }
    }

    /// A summary of the conversation.
    pub open spec fn with_summarization(self, usage: Option<Usage>) -> ScanView {
        match usage {
            Some(usage) => ScanView { summarizations: self.summarizations.push(usage), ..self },
            None => self,
        }
    }

    /// One entry of the file; entries of other types count nothing.
    pub open spec fn with_entry(self, entry: ScanEntry) -> ScanView {
        if entry.type_@ == "message"@ {
            self.with_message(entry.id@, crate::text::opt_text(entry.role), entry.message_usage)
        } else if entry.type_@ == "child_usage_attributed"@ {
            self.with_attribution(
                crate::text::opt_text(entry.target_id),
                entry.child_usage,
                entry.aggregate_usage,
            )
        } else if entry.type_@ == "compaction"@ || entry.type_@ == "branch_summary"@ {
            self.with_summarization(entry.usage)
        } else {
            self
        }
    }

    /// What was spent before the children's part is taken off.
    pub open spec fn gross(self) -> Tokens {
        tokens_of(blocks_of(self.assistant)).and(tokens_of(self.summarizations))
    }

    /// The session's own spend.
    pub open spec fn own(self) -> Tokens {
        self.gross().less(tokens_of(self.children))
    }

    /// The summary of the session's own spend: none where there was no billable
    /// work at all.
    pub open spec fn summarized(self, cost_is_zero: bool) -> Option<SessionUsageSummary> {
        if summary_of(self.gross(), cost_is_zero) is None {
            None
        } else {
            let own = self.own();
            Some(
                SessionUsageSummary {
                    input_tokens: (own.input + own.cache_read + own.cache_write) as u64,
                    output_tokens: own.output as u64,
                },
            )
        }
    }

    /// Whether the counts fit machine words.
    pub open spec fn fits(self) -> bool {
        self.gross().fit() && tokens_of(self.children).fit()
    }
}

proof fn lemma_set_block(assistant: Seq<(Seq<char>, Usage)>, id: Seq<char>, usage: Usage, at: int)
    requires
        0 <= at <= assistant.len(),
        forall|j: int| 0 <= j < at ==> (#[trigger] assistant[j]).0 != id,
        at < assistant.len() ==> assistant[at].0 == id,
    ensures
        at < assistant.len() ==> set_block(assistant, id, usage) == assistant.update(
            at,
            (id, usage),
        ),
        at == assistant.len() ==> set_block(assistant, id, usage) == assistant.push((id, usage)),
    decreases assistant.len(),
{
    if assistant.len() == 0 {
        assert(assistant.push((id, usage)) =~= seq![(id, usage)]);
    } else if at > 0 {
        let rest = assistant.drop_first();
        assert forall|j: int| 0 <= j < at - 1 implies (#[trigger] rest[j]).0 != id by {
            assert(rest[j] == assistant[j + 1]);
        }
        if at < assistant.len() {
            assert(rest[at - 1] == assistant[at]);
        }
        lemma_set_block(rest, id, usage, at - 1);
        if at < assistant.len() {
            assert(seq![assistant[0]] + rest.update(at - 1, (id, usage)) =~= assistant.update(
                at,
                (id, usage),
            ));
        } else {
            assert(seq![assistant[0]] + rest.push((id, usage)) =~= assistant.push((id, usage)));
        }
    }
}

proof fn lemma_tokens_monotone(blocks: Seq<Usage>, n: int)
    requires
        0 <= n <= blocks.len(),
    ensures
        tokens_of(blocks.take(n)).input <= tokens_of(blocks).input,
        tokens_of(blocks.take(n)).output <= tokens_of(blocks).output,
        tokens_of(blocks.take(n)).cache_read <= tokens_of(blocks).cache_read,
        tokens_of(blocks.take(n)).cache_write <= tokens_of(blocks).cache_write,
    decreases blocks.len() - n,
{
    if n == blocks.len() {
        assert(blocks.take(n) =~= blocks);
    } else {
        lemma_tokens_monotone(blocks, n + 1);
        assert(blocks.take(n + 1).drop_last() =~= blocks.take(n));
    }
}

/// A running total of blocks.
#[derive(Debug, Clone, Copy)]
struct Total {
    input: u64,
    output: u64,
    cache_read: u64,
    cache_write: u64,
}

impl Total {
    spec fn is(self, tokens: Tokens) -> bool {
        &&& self.input == tokens.input
        &&& self.output == tokens.output
        &&& self.cache_read == tokens.cache_read
        &&& self.cache_write == tokens.cache_write
    }

    fn plus(self, usage: &Usage) -> (r: Total)
        requires
            self.input + usage.input <= u64::MAX,
            self.output + usage.output <= u64::MAX,
            self.cache_read + usage.cache_read <= u64::MAX,
            self.cache_write + usage.cache_write <= u64::MAX,
        ensures
            forall|tokens: Tokens| self.is(tokens) ==> r.is(#[trigger] tokens.plus(*usage)),
    {
        Total {
            input: self.input + usage.input,
            output: self.output + usage.output,
            cache_read: self.cache_read + usage.cache_read,
            cache_write: self.cache_write + usage.cache_write,
        }
    }
}

fn total_of(blocks: &Vec<Usage>) -> (r: Total)
    requires
        tokens_of(blocks@).fit(),
    ensures
        r.is(tokens_of(blocks@)),
{
    let mut total = Total { input: 0, output: 0, cache_read: 0, cache_write: 0 };
    let mut i: usize = 0;
    assert(blocks@.take(0) =~= Seq::empty());
    while i < blocks.len()
        invariant
            i <= blocks@.len(),
            tokens_of(blocks@).fit(),
            total.is(tokens_of(blocks@.take(i as int))),
        decreases blocks@.len() - i,
    {
        proof {
            lemma_tokens_monotone(blocks@, i + 1);
            assert(blocks@.take(i + 1).drop_last() =~= blocks@.take(i as int));
            assert(tokens_of(blocks@.take(i + 1)) == tokens_of(blocks@.take(i as int)).plus(
                blocks@[i as int],
            ));
        }
        total = total.plus(&blocks[i]);
        i = i + 1;
    }
    assert(blocks@.take(i as int) =~= blocks@);
    total
}

fn checked_total(blocks: &Vec<Usage>) -> (r: Option<Total>)
    ensures
        match r {
            Some(total) => tokens_of(blocks@).fit() && total.is(tokens_of(blocks@)),
            None => !tokens_of(blocks@).fit(),
        },
{
    let mut total = Total { input: 0, output: 0, cache_read: 0, cache_write: 0 };
    let mut i: usize = 0;
    assert(blocks@.take(0) =~= Seq::empty());
    while i < blocks.len()
        invariant
            i <= blocks@.len(),
            tokens_of(blocks@.take(i as int)).fit(),
            total.is(tokens_of(blocks@.take(i as int))),
        decreases blocks@.len() - i,
    {
        proof {
            lemma_tokens_monotone(blocks@, i + 1);
            assert(blocks@.take(i + 1).drop_last() =~= blocks@.take(i as int));
            assert(tokens_of(blocks@.take(i + 1)) == tokens_of(blocks@.take(i as int)).plus(
                blocks@[i as int],
            ));
        }
        let block = &blocks[i];
        let input: u128 = total.input as u128 + block.input as u128 + total.cache_read as u128
            + block.cache_read as u128 + total.cache_write as u128 + block.cache_write as u128;
        let output: u128 = total.output as u128 + block.output as u128;
        if input > u64::MAX as u128 || output > u64::MAX as u128 {
            return None;
        }
        total = total.plus(block);
        i = i + 1;
    }
    assert(blocks@.take(i as int) =~= blocks@);
    Some(total)
}

/// The order in which the costs of a scan are added up: each assistant block,
/// then each summarization block, and the sum of the child blocks is taken off,
/// not below zero.
#[derive(Debug, PartialEq, Eq)]
pub struct CostPlan {
    pub assistant: Vec<u64>,
    pub summarizations: Vec<u64>,
    pub children: Vec<u64>,
}

/// The costs of a run of blocks.
pub open spec fn costs_of(blocks: Seq<Usage>) -> Seq<u64> {
    Seq::new(blocks.len(), |i: int| blocks[i].cost)
}

fn costs(blocks: &Vec<Usage>) -> (r: Vec<u64>)
    ensures
        r@ == costs_of(blocks@),
{
    let mut out: Vec<u64> = Vec::new();
    let mut i: usize = 0;
    while i < blocks.len()
        invariant
            i <= blocks@.len(),
            out@ == costs_of(blocks@).take(i as int),
        decreases blocks@.len() - i,
    {
        out.push(blocks[i].cost);
        i = i + 1;
        assert(out@ =~= costs_of(blocks@).take(i as int));
    }
    assert(out@ =~= costs_of(blocks@));
    out
}

impl UsageScan {
    /// A fold of nothing.
    pub fn new() -> (r: UsageScan)
        ensures
            r@ == ScanView::empty(),
    {
        let r = UsageScan {
            assistant: Vec::new(),
            children: Vec::new(),
            summarizations: Vec::new(),
        };
        assert(r@ =~= ScanView::empty());
        r
    }

    fn position(&self, id: &str) -> (r: Option<usize>)
        ensures
            match r {
                Some(i) => i < self@.assistant.len() && self@.assistant[i as int].0 == id@
                    && holds_entry(self@.assistant, id@) && forall|j: int|
                    0 <= j < i ==> (#[trigger] self@.assistant[j]).0 != id@,
                None => !holds_entry(self@.assistant, id@),
            },
    {
        let ghost all = self@.assistant;
        let mut i: usize = 0;
        while i < self.assistant.len()
            invariant
                i <= self.assistant@.len(),
                all == keyed_view(self.assistant@),
                all == self@.assistant,
                forall|j: int| 0 <= j < i ==> (#[trigger] all[j]).0 != id@,
            decreases self.assistant@.len() - i,
        {
            if same_text(self.assistant[i].0.as_str(), id) {
                assert(all[i as int].0 == id@);
                return Some(i);
            }
            i = i + 1;
        }
        None
    }

    fn set(&mut self, id: &str, usage: Usage)
        ensures
            final(self)@ == (ScanView {
                assistant: set_block(old(self)@.assistant, id@, usage),
                ..old(self)@
            }),
    {
        let ghost before = self@.assistant;
        match self.position(id) {
            Some(i) => {
                proof {
                    lemma_set_block(before, id@, usage, i as int);
                }
                self.assistant[i] = (id.to_owned(), usage);
                assert(self@.assistant =~= before.update(i as int, (id@, usage)));
            },
            None => {
                proof {
                    assert forall|j: int| 0 <= j < before.len() implies (#[trigger] before[j]).0
                        != id@ by {}
                    lemma_set_block(before, id@, usage, before.len() as int);
                }
                self.assistant.push((id.to_owned(), usage));
                assert(self@.assistant =~= before.push((id@, usage)));
            },
        }
    }

    /// Fold a message: only an assistant's with a usage block counts.
    pub fn fold_message(&mut self, id: &str, role: Option<&str>, usage: Option<&Usage>)
        ensures
            final(self)@ == old(self)@.with_message(
                id@,
                opt_str(role),
                match usage {
                    Some(usage) => Some(*usage),
                    None => None,
                },
            ),
    {
        if !is_text(role, "assistant") {
            return;
        }
        match usage {
            Some(usage) => {
                self.set(id, *usage);
            },
            None => {},
        }
    }

    /// Fold an attribution of child spend: where its target is there, the
    /// aggregate replaces the target's block and the child block is kept.
    pub fn fold_child_attribution(
        &mut self,
        target_id: Option<&str>,
        child_usage: Option<&Usage>,
        aggregate_usage: Option<&Usage>,
    )
        ensures
            final(self)@ == old(self)@.with_attribution(
                opt_str(target_id),
                match child_usage {
                    Some(usage) => Some(*usage),
                    None => None,
                },
                match aggregate_usage {
                    Some(usage) => Some(*usage),
                    None => None,
                },
            ),
    {
        match (target_id, child_usage, aggregate_usage) {
            (Some(target), Some(child), Some(aggregate)) => {
                if self.position(target).is_some() {
                    self.set(target, *aggregate);
                    let ghost before = self@;
                    self.children.push(*child);
                    assert(self@ =~= (ScanView {
                        children: before.children.push(*child),
                        ..before
                    }));
                }
            },
            _ => {},
        }
    }

    /// Fold the usage of a summary of the conversation.
    pub fn fold_summarization(&mut self, usage: Option<&Usage>)
        ensures
            final(self)@ == old(self)@.with_summarization(
                match usage {
                    Some(usage) => Some(*usage),
                    None => None,
                },
            ),
    {
        match usage {
            Some(usage) => {
                self.summarizations.push(*usage);
                assert(self@ =~= old(self)@.with_summarization(Some(*usage)));
            },
            None => {},
        }
    }

    /// Fold one entry of the file.
    pub fn fold_entry(&mut self, entry: &ScanEntry)
        ensures
            final(self)@ == old(self)@.with_entry(*entry),
    {
        let kind = entry.type_.as_str();
        if same_text(kind, "message") {
            self.fold_message(
                entry.id.as_str(),
                crate::text::as_opt_str(&entry.role),
                match &entry.message_usage {
                    Some(usage) => Some(usage),
                    None => None,
                },
            );
        } else if same_text(kind, "child_usage_attributed") {
            self.fold_child_attribution(
                crate::text::as_opt_str(&entry.target_id),
                match &entry.child_usage {
                    Some(usage) => Some(usage),
                    None => None,
                },
                match &entry.aggregate_usage {
                    Some(usage) => Some(usage),
                    None => None,
                },
            );
        } else if same_text(kind, "compaction") || same_text(kind, "branch_summary") {
            self.fold_summarization(
                match &entry.usage {
                    Some(usage) => Some(usage),
                    None => None,
                },
            );
        }
    }

    /// The blocks whose costs are added up, in order.
    pub fn cost_plan(&self) -> (r: CostPlan)
        ensures
            r.assistant@ == costs_of(blocks_of(self@.assistant)),
            r.summarizations@ == costs_of(self@.summarizations),
            r.children@ == costs_of(self@.children),
    {
        let blocks = self.blocks();
        CostPlan {
            assistant: costs(&blocks),
            summarizations: costs(&self.summarizations),
            children: costs(&self.children),
        }
    }

    fn blocks(&self) -> (r: Vec<Usage>)
        ensures
            r@ == blocks_of(self@.assistant),
    {
        let mut out: Vec<Usage> = Vec::new();
        let mut i: usize = 0;
        while i < self.assistant.len()
            invariant
                i <= self.assistant@.len(),
                self@.assistant == keyed_view(self.assistant@),
                out@ == blocks_of(self@.assistant).take(i as int),
            decreases self.assistant@.len() - i,
        {
            out.push(self.assistant[i].1);
            i = i + 1;
            assert(out@ =~= blocks_of(self@.assistant).take(i as int));
        }
        assert(out@ =~= blocks_of(self@.assistant));
        out
    }

    /// Whether the counts fit machine words.
    pub fn counts_fit(&self) -> (r: bool)
        ensures
            r == self@.fits(),
    {
        let blocks = self.blocks();
        match (
            checked_total(&blocks),
            checked_total(&self.summarizations),
            checked_total(&self.children),
        ) {
            (Some(assistant), Some(summarizations), Some(_)) => {
                let input: u128 = assistant.input as u128 + assistant.cache_read as u128
                    + assistant.cache_write as u128 + summarizations.input as u128
                    + summarizations.cache_read as u128 + summarizations.cache_write as u128;
                let output: u128 = assistant.output as u128 + summarizations.output as u128;
                input <= u64::MAX as u128 && output <= u64::MAX as u128
            },
            _ => false,
        }
    }

    /// The summary of the session's own spend, given whether all that was spent
    /// cost nothing: none where there was no billable work at all. Where nothing
    /// is left once the children's part is taken off, the summary has zeros.
    pub fn summary(&self, cost_is_zero: bool) -> (r: Option<SessionUsageSummary>)
        requires
            self@.fits(),
        ensures
            r == self@.summarized(cost_is_zero),
    {
        let blocks = self.blocks();
        let assistant = total_of(&blocks);
        let summarizations = total_of(&self.summarizations);
        let children = total_of(&self.children);
        let gross = Usage {
            input: assistant.input + summarizations.input,
            output: assistant.output + summarizations.output,
            cache_read: assistant.cache_read + summarizations.cache_read,
            cache_write: assistant.cache_write + summarizations.cache_write,
            cost: 0,
        };
        if session_usage_summary_from(&gross, cost_is_zero).is_none() {
            return None;
        }
        let input: u64 = gross.input.saturating_sub(children.input);
        let output: u64 = gross.output.saturating_sub(children.output);
        let cache_read: u64 = gross.cache_read.saturating_sub(children.cache_read);
        let cache_write: u64 = gross.cache_write.saturating_sub(children.cache_write);
        Some(
            SessionUsageSummary {
                input_tokens: input + cache_read + cache_write,
                output_tokens: output,
            },
        )
    }
}

/// The fold of a file's entries.
pub open spec fn folded(entries: Seq<ScanEntry>) -> ScanView
    decreases entries.len(),
{
    if entries.len() == 0 {
        ScanView::empty()
    } else {
        folded(entries.drop_last()).with_entry(entries.last())
    }
}

/// Fold all entries of a file.
pub fn scan_entries(entries: &Vec<ScanEntry>) -> (r: UsageScan)
    ensures
        r@ == folded(entries@),
{
    let mut scan = UsageScan::new();
    let mut i: usize = 0;
    assert(entries@.take(0) =~= Seq::empty());
    while i < entries.len()
        invariant
            i <= entries@.len(),
            scan@ == folded(entries@.take(i as int)),
        decreases entries@.len() - i,
    {
        assert(entries@.take(i + 1).drop_last() =~= entries@.take(i as int));
        scan.fold_entry(&entries[i]);
        i = i + 1;
    }
    assert(entries@.take(i as int) =~= entries@);
    scan
}

/// The first position of an entry.
pub open spec fn first_at(assistant: Seq<(Seq<char>, Usage)>, id: Seq<char>) -> int
    decreases assistant.len(),
{
    if assistant.len() == 0 || assistant[0].0 == id {
        0
    } else {
        1 + first_at(assistant.drop_first(), id)
    }
}

proof fn lemma_first_at(assistant: Seq<(Seq<char>, Usage)>, id: Seq<char>)
    requires
        holds_entry(assistant, id),
    ensures
        0 <= first_at(assistant, id) < assistant.len(),
        assistant[first_at(assistant, id)].0 == id,
        forall|j: int| 0 <= j < first_at(assistant, id) ==> (#[trigger] assistant[j]).0 != id,
    decreases assistant.len(),
{
    if assistant[0].0 != id {
        let rest = assistant.drop_first();
        let k = choose|k: int| 0 <= k < assistant.len() && (#[trigger] assistant[k]).0 == id;
        assert(rest[k - 1].0 == id);
        lemma_first_at(rest, id);
        assert forall|j: int| 0 <= j < first_at(assistant, id) implies (#[trigger] assistant[j]).0
            != id by {
            if j > 0 {
                assert(rest[j - 1] == assistant[j]);
            }
        }
    }
}

/// The usage with another block's tokens added.
pub open spec fn grown(usage: Usage, child: Usage, aggregate: Usage) -> bool {
    &&& aggregate.input == usage.input + child.input
    &&& aggregate.output == usage.output + child.output
    &&& aggregate.cache_read == usage.cache_read + child.cache_read
    &&& aggregate.cache_write == usage.cache_write + child.cache_write
}

proof fn lemma_tokens_update(blocks: Seq<Usage>, at: int, child: Usage, aggregate: Usage)
    requires
        0 <= at < blocks.len(),
        grown(blocks[at], child, aggregate),
    ensures
        tokens_of(blocks.update(at, aggregate)) == tokens_of(blocks).plus(child),
    decreases blocks.len(),
{
    let after = blocks.update(at, aggregate);
    if at == blocks.len() - 1 {
        assert(after.drop_last() =~= blocks.drop_last());
    } else {
        assert(after.drop_last() =~= blocks.drop_last().update(at, aggregate));
        lemma_tokens_update(blocks.drop_last(), at, child, aggregate);
    }
}

/// Child spend is never counted on the parent: an attribution whose aggregate
/// is the target's block with the child's added leaves the session's own spend
/// as it was.
pub proof fn law_child_spend_stays_with_the_child(
    scan: ScanView,
    target: Seq<char>,
    child: Usage,
    aggregate: Usage,
)
    requires
        holds_entry(scan.assistant, target),
        grown(scan.assistant[first_at(scan.assistant, target)].1, child, aggregate),
    ensures
        scan.with_attribution(Some(target), Some(child), Some(aggregate)).own() == scan.own(),
{
    let at = first_at(scan.assistant, target);
    lemma_first_at(scan.assistant, target);
    lemma_set_block(scan.assistant, target, aggregate, at);
    let after = scan.with_attribution(Some(target), Some(child), Some(aggregate));
    assert(blocks_of(after.assistant) =~= blocks_of(scan.assistant).update(at, aggregate));
    lemma_tokens_update(blocks_of(scan.assistant), at, child, aggregate);
    assert(after.children.drop_last() =~= scan.children);
    assert(tokens_of(after.children) == tokens_of(scan.children).plus(child));
}

/// An attribution ahead of its target, or aimed at none, counts nothing, and no
/// attribution changes which entries are counted.
pub proof fn law_attributions_need_their_target(
    scan: ScanView,
    target: Option<Seq<char>>,
    child: Option<Usage>,
    aggregate: Option<Usage>,
    id: Seq<char>,
)
    ensures
        target is None || !holds_entry(scan.assistant, target->0) ==> scan.with_attribution(
            target,
            child,
            aggregate,
        ) == scan,
        holds_entry(scan.with_attribution(target, child, aggregate).assistant, id)
            == holds_entry(scan.assistant, id),
        scan.with_attribution(target, child, aggregate).assistant.len() == scan.assistant.len(),
{
    if target is Some && child is Some && aggregate is Some && holds_entry(
        scan.assistant,
        target->0,
    ) {
        let before = scan.assistant;
        let at = first_at(before, target->0);
        lemma_first_at(before, target->0);
        lemma_set_block(before, target->0, aggregate->0, at);
        let after = before.update(at, (target->0, aggregate->0));
        if holds_entry(before, id) {
            let k = choose|k: int| 0 <= k < before.len() && (#[trigger] before[k]).0 == id;
            assert(after[k].0 == id);
        }
        if holds_entry(after, id) {
            let k = choose|k: int| 0 <= k < after.len() && (#[trigger] after[k]).0 == id;
            assert(before[k].0 == id);
        }
    }
}

} // verus!
