//! The result writer's bookkeeping: which prefixes have been found, which
//! found records are written to the result file, and when the search is
//! complete.

use vstd::prelude::*;
use vstd::string::*;
use crate::prefix::TargetPrefixes;
use crate::record::{event_view, found_line, found_line_spec, LogMessage, MessageView};

verus! {

/// The name of the result file, to which one line is appended for every
/// prefix found.
pub const RESULT_FILE_NAME: &'static str = "result.log";

/// What the result writer does with a found record.
#[derive(Debug, Clone, Copy, PartialEq, Eq, Structural)]
pub enum Verdict {
    /// The search was already complete: the record is not looked at.
    Closed,
    /// The prefix was found before: the record is discarded.
    Duplicate,
    /// The prefix is new: the record is written to the result file.
    Recorded,
    /// The prefix is new and was the last one missing: the record is written
    /// to the result file and the search is declared complete.
    Completed,
}

/// The ledger as plain values: the number of target prefixes, the prefixes
/// found so far in the order of their discovery, and the termination flag.
pub struct LedgerView {
    pub target_count: nat,
    pub found: Seq<Seq<char>>,
    pub all_found: bool,
}

/// The ledger at the start of a run.
pub open spec fn fresh_ledger(target_count: nat) -> LedgerView {
    LedgerView { target_count, found: Seq::empty(), all_found: false }
}

/// The verdict on a found record for `prefix`.
pub open spec fn verdict_on(ledger: LedgerView, prefix: Seq<char>) -> Verdict {
    if ledger.all_found {
        Verdict::Closed
    } else if ledger.found.contains(prefix) {
        Verdict::Duplicate
    } else if ledger.found.len() + 1 == ledger.target_count {
        Verdict::Completed
    } else {
        Verdict::Recorded
    }
}

/// The ledger after a found record for `prefix` has been dealt with: a new
/// prefix is appended to the found prefixes, and the termination flag is
/// raised when their number reaches the number of target prefixes. Nothing
/// changes for a prefix found before, nor once the flag is up.
pub open spec fn ledger_after(ledger: LedgerView, prefix: Seq<char>) -> LedgerView {
    match verdict_on(ledger, prefix) {
        Verdict::Closed | Verdict::Duplicate => ledger,
        Verdict::Recorded => LedgerView { found: ledger.found.push(prefix), ..ledger },
        Verdict::Completed => LedgerView {
            found: ledger.found.push(prefix),
            all_found: true,
            ..ledger
        },
    }
}

/// The target prefixes that are still to be found, in the order of the
/// target list.
pub open spec fn missing(targets: Seq<Seq<char>>, found: Seq<Seq<char>>) -> Seq<Seq<char>>
    decreases targets.len(),
{
    if targets.len() == 0 {
        Seq::empty()
    } else {
        let earlier = missing(targets.drop_last(), found);
        if found.contains(targets.last()) {
            earlier
        } else {
            earlier.push(targets.last())
        }
    }
}

/// The found prefixes and the termination flag of the result writer.
pub struct ResultLedger {
    target_count: usize,
    found: Vec<String>,
    all_found: bool,
}

impl View for ResultLedger {
    type V = LedgerView;

    closed spec fn view(&self) -> LedgerView {
        LedgerView {
            target_count: self.target_count as nat,
            found: self.found.deep_view(),
            all_found: self.all_found,
        }
    }
}

impl ResultLedger {
    /// The ledger of a run with `target_count` target prefixes: nothing
    /// found, flag down.
    pub fn new(target_count: usize) -> (r: Self)
        ensures
            r@ == fresh_ledger(target_count as nat),
    {
        let r = ResultLedger { target_count, found: Vec::new(), all_found: false };
        assert(r@.found =~= Seq::empty());
        r
    }

    /// The termination flag.
    pub fn all_found(&self) -> (r: bool)
        ensures
            r == self@.all_found,
    {
        self.all_found
    }

    /// The number of distinct prefixes found so far.
    pub fn found_count(&self) -> (n: usize)
        ensures
            n == self@.found.len(),
    {
        self.found.len()
    }

    /// Whether `prefix` has been found.
    pub fn is_found(&self, prefix: &str) -> (r: bool)
        ensures
            r == self@.found.contains(prefix@),
    {
        let wanted = prefix.to_owned();
        let mut i: usize = 0;
        while i < self.found.len()
            invariant
                i <= self.found@.len(),
                wanted@ == prefix@,
                forall|j: int| 0 <= j < i ==> self@.found[j] != prefix@,
            decreases self.found@.len() - i,
        {
            if self.found[i] == wanted {
                assert(self@.found[i as int] == prefix@);
                return true;
            }
            i = i + 1;
        }
        false
    }

    /// The prefixes found so far, in the order of their discovery.
    pub fn found_prefixes(&self) -> (list: Vec<String>)
        ensures
            list.deep_view() == self@.found,
    {
        let mut list: Vec<String> = Vec::new();
        let mut i: usize = 0;
        while i < self.found.len()
            invariant
                i <= self.found@.len(),
                list.deep_view() =~= self@.found.take(i as int),
            decreases self.found@.len() - i,
        {
            let ghost before = list.deep_view();
            list.push(self.found[i].clone());
            assert(list.deep_view() =~= before.push(self.found@[i as int]@));
            assert(self@.found.take(i + 1) =~= self@.found.take(i as int).push(
                self@.found[i as int],
            ));
            i = i + 1;
        }
        assert(self@.found.take(self.found@.len() as int) =~= self@.found);
        list
    }

    /// The target prefixes that have not been found yet, in the order of
    /// the target list.
    pub fn remaining(&self, targets: &TargetPrefixes) -> (list: Vec<String>)
        ensures
            list.deep_view() == missing(targets@, self@.found),
    {
        let mut list: Vec<String> = Vec::new();
        let mut i: usize = 0;
        assert(targets@.take(0) =~= Seq::empty());
        while i < targets.len()
            invariant
                i <= targets@.len(),
                list.deep_view() =~= missing(targets@.take(i as int), self@.found),
            decreases targets@.len() - i,
        {
            let target = targets.get(i);
            assert(targets@.take(i + 1).drop_last() =~= targets@.take(i as int));
            if !self.is_found(target.as_str()) {
                let ghost before = list.deep_view();
                list.push(target.clone());
                assert(list.deep_view() =~= before.push(targets@[i as int]));
            }
            i = i + 1;
        }
        assert(targets@.take(targets@.len() as int) =~= targets@);
        list
    }

    /// Deals with a found record for `prefix` and says what is to be done
    /// with it. A record that is `Recorded` or `Completed` has to be written
    /// to the result file; after `Completed` the writer stops.
    pub fn accept(&mut self, prefix: &str) -> (verdict: Verdict)
        ensures
            verdict == verdict_on(old(self)@, prefix@),
            final(self)@ == ledger_after(old(self)@, prefix@),
    {
        if self.all_found {
            return Verdict::Closed;
        }
        if self.is_found(prefix) {
            return Verdict::Duplicate;
        }
        self.found.push(prefix.to_owned());
        assert(self@.found =~= old(self)@.found.push(prefix@));
        if self.found.len() == self.target_count {
            self.all_found = true;
            Verdict::Completed
        } else {
            Verdict::Recorded
        }
    }
}

/// What the result writer has to do about an event on the result channel.
#[derive(Debug, Clone, PartialEq, Eq)]
pub enum ResultAction {
    /// Append the line to the result file and flush it. Where `complete` is
    /// set, every target prefix has now been found: raise the termination
    /// flag and stop.
    Write { line: String, complete: bool },
    /// Nothing: the record is discarded.
    Skip,
    /// Flush the result file and stop without raising the termination flag:
    /// the channel is closed.
    Stop,
}

/// An action of the result writer as plain values.
pub enum ResultActionView {
    Write { line: Seq<char>, complete: bool },
    Skip,
    Stop,
}

impl View for ResultAction {
    type V = ResultActionView;

    open spec fn view(&self) -> ResultActionView {
        match self {
            ResultAction::Write { line, complete } => ResultActionView::Write {
                line: line@,
                complete: *complete,
            },
            ResultAction::Skip => ResultActionView::Skip,
            ResultAction::Stop => ResultActionView::Stop,
        }
    }
}

/// The action that an event on the result channel calls for: a message, or
/// nothing once every sender is gone. The first found record of a prefix is
/// written as one line, later ones for the same prefix are discarded, and so
/// is everything that arrives once the search is complete; an attempt is not
/// the result writer's business.
pub open spec fn result_action_spec(ledger: LedgerView, event: Option<MessageView>) -> ResultActionView {
    match event {
        Some(MessageView::Found(record)) => match verdict_on(ledger, record.prefix) {
            Verdict::Recorded => ResultActionView::Write {
                line: found_line_spec(record),
                complete: false,
            },
            Verdict::Completed => ResultActionView::Write {
                line: found_line_spec(record),
                complete: true,
            },
            Verdict::Duplicate | Verdict::Closed => ResultActionView::Skip,
        },
        Some(MessageView::Regular(_)) => ResultActionView::Skip,
        None => ResultActionView::Stop,
    }
}

/// The ledger after an event on the result channel: a found record is dealt
/// with by its prefix, anything else leaves the ledger as it is.
pub open spec fn ledger_after_event(ledger: LedgerView, event: Option<MessageView>) -> LedgerView {
    match event {
        Some(MessageView::Found(record)) => ledger_after(ledger, record.prefix),
        _ => ledger,
    }
}

/// One step of the result writer: takes what the result channel delivered
/// (`None` once the channel is closed), updates the ledger and says what is
/// to be done.
pub fn result_writer_step(ledger: &mut ResultLedger, event: &Option<LogMessage>) -> (action:
    ResultAction)
    ensures
        action@ == result_action_spec(old(ledger)@, event_view(*event)),
        final(ledger)@ == ledger_after_event(old(ledger)@, event_view(*event)),
{
    match event {
        Some(LogMessage::Found(record)) => {
            match ledger.accept(record.prefix.as_str()) {
                Verdict::Recorded => ResultAction::Write {
                    line: found_line(record),
                    complete: false,
                },
                Verdict::Completed => ResultAction::Write {
                    line: found_line(record),
                    complete: true,
                },
                Verdict::Duplicate | Verdict::Closed => ResultAction::Skip,
            }
        },
        Some(LogMessage::Regular(_)) => ResultAction::Skip,
        None => ResultAction::Stop,
    }
}

/// The ledger of a run in which found records for `prefixes` arrived in
/// that order.
pub open spec fn ledger_after_all(target_count: nat, prefixes: Seq<Seq<char>>) -> LedgerView
    decreases prefixes.len(),
{
    if prefixes.len() == 0 {
        fresh_ledger(target_count)
    } else {
        ledger_after(ledger_after_all(target_count, prefixes.drop_last()), prefixes.last())
    }
}

/// The prefixes of the records that are written to the result file, in the
/// order of their lines, when found records for `prefixes` arrive in that
/// order.
pub open spec fn written_prefixes(target_count: nat, prefixes: Seq<Seq<char>>) -> Seq<Seq<char>>
    decreases prefixes.len(),
{
    if prefixes.len() == 0 {
        Seq::empty()
    } else {
        let earlier = written_prefixes(target_count, prefixes.drop_last());
        match verdict_on(ledger_after_all(target_count, prefixes.drop_last()), prefixes.last()) {
            Verdict::Closed | Verdict::Duplicate => earlier,
            Verdict::Recorded | Verdict::Completed => earlier.push(prefixes.last()),
        }
    }
}

/// What holds of the ledger after found records for `seen` have arrived.
spec fn consistent_with(ledger: LedgerView, seen: Seq<Seq<char>>) -> bool {
    &&& ledger.found.no_duplicates()
    &&& forall|p: Seq<char>| ledger.found.contains(p) ==> seen.contains(p)
    &&& !ledger.all_found ==> forall|p: Seq<char>| seen.contains(p) ==> ledger.found.contains(p)
    &&& ledger.all_found ==> ledger.found.len() == ledger.target_count
    &&& !ledger.all_found && ledger.target_count > 0 ==> ledger.found.len() < ledger.target_count
}

proof fn lemma_consistent(target_count: nat, prefixes: Seq<Seq<char>>)
    ensures
        consistent_with(ledger_after_all(target_count, prefixes), prefixes),
        ledger_after_all(target_count, prefixes).target_count == target_count,
    decreases prefixes.len(),
{
    if prefixes.len() > 0 {
        let earlier = prefixes.drop_last();
        let last = prefixes.last();
        let before = ledger_after_all(target_count, earlier);
        let after = ledger_after_all(target_count, prefixes);
        lemma_consistent(target_count, earlier);
        assert(prefixes =~= earlier.push(last));
        assert forall|p: Seq<char>| prefixes.contains(p) <==> earlier.contains(p) || p == last by {
            if earlier.contains(p) {
                let i = choose|i: int| 0 <= i < earlier.len() && earlier[i] == p;
                assert(prefixes[i] == p);
            }
            if p == last {
                assert(prefixes[prefixes.len() - 1] == p);
            }
        }
        match verdict_on(before, last) {
            Verdict::Closed | Verdict::Duplicate => {},
            Verdict::Recorded | Verdict::Completed => {
                let found = before.found.push(last);
                assert(after.found == found);
                assert forall|p: Seq<char>| found.contains(p) <==> before.found.contains(p) || p
                    == last by {
                    if before.found.contains(p) {
                        let i = choose|i: int| 0 <= i < before.found.len() && before.found[i] == p;
                        assert(found[i] == p);
                    }
                    if p == last {
                        assert(found[found.len() - 1] == p);
                    }
                }
                assert(found.no_duplicates()) by {
                    assert forall|i: int, j: int|
                        0 <= i < found.len() && 0 <= j < found.len() && i != j implies found[i]
                        != found[j] by {
                        if i < before.found.len() && j < before.found.len() {
                        } else if i < before.found.len() {
                            assert(before.found.contains(found[i]));
                        } else {
                            assert(before.found.contains(found[j]));
                        }
                    }
                }
            },
        }
    }
}

/// No prefix is found twice: whatever found records arrive, and in whatever
/// order, the found prefixes are pairwise distinct, and so are the prefixes
/// of the lines of the result file, which are the found prefixes in the order
/// of their discovery.
pub proof fn lemma_one_record_per_prefix(target_count: nat, prefixes: Seq<Seq<char>>)
    ensures
        ledger_after_all(target_count, prefixes).found.no_duplicates(),
        written_prefixes(target_count, prefixes) == ledger_after_all(target_count, prefixes).found,
    decreases prefixes.len(),
{
    lemma_consistent(target_count, prefixes);
    if prefixes.len() > 0 {
        lemma_one_record_per_prefix(target_count, prefixes.drop_last());
    }
}

/// A found record for a prefix that the ledger has just dealt with changes
/// nothing and is not written: of two records for one prefix, only the first
/// can reach the result file.
pub proof fn lemma_second_record_is_dropped(ledger: LedgerView, prefix: Seq<char>)
    ensures
        verdict_on(ledger_after(ledger, prefix), prefix) == Verdict::Duplicate || verdict_on(
            ledger_after(ledger, prefix),
            prefix,
        ) == Verdict::Closed,
        ledger_after(ledger_after(ledger, prefix), prefix) == ledger_after(ledger, prefix),
{
    let once = ledger_after(ledger, prefix);
    match verdict_on(ledger, prefix) {
        Verdict::Closed | Verdict::Duplicate => {},
        Verdict::Recorded | Verdict::Completed => {
            assert(once.found[once.found.len() - 1] == prefix);
        },
    }
}

/// The termination flag is never lowered and the found prefixes only grow:
/// the ledger before any step lists a prefix (in that order) of what the
/// ledger lists after it.
pub proof fn lemma_ledger_grows(ledger: LedgerView, prefix: Seq<char>)
    ensures
        ledger.all_found ==> ledger_after(ledger, prefix).all_found,
        ledger.found.is_prefix_of(ledger_after(ledger, prefix).found),
        ledger_after(ledger, prefix).target_count == ledger.target_count,
{
}

/// For a list of target prefixes that is not empty and names no prefix
/// twice, and found records that are all for target prefixes: the search is
/// complete if and only if a record has arrived for every target prefix, and
/// the result file then holds exactly one line for each target prefix.
pub proof fn lemma_complete_iff_all_found(targets: Seq<Seq<char>>, prefixes: Seq<Seq<char>>)
    requires
        targets.len() > 0,
        targets.no_duplicates(),
        forall|k: int| 0 <= k < prefixes.len() ==> targets.contains(#[trigger] prefixes[k]),
    ensures
        ledger_after_all(targets.len(), prefixes).all_found <==> forall|i: int|
            0 <= i < targets.len() ==> prefixes.contains(#[trigger] targets[i]),
        ledger_after_all(targets.len(), prefixes).all_found ==> {
            let lines = written_prefixes(targets.len(), prefixes);
            &&& lines.len() == targets.len()
            &&& lines.no_duplicates()
            &&& forall|i: int| 0 <= i < targets.len() ==> lines.contains(#[trigger] targets[i])
            &&& forall|j: int| 0 <= j < lines.len() ==> targets.contains(#[trigger] lines[j])
        },
{
    broadcast use vstd::seq_lib::seq_to_set_is_finite;

    let ledger = ledger_after_all(targets.len(), prefixes);
    let found = ledger.found;
    lemma_consistent(targets.len(), prefixes);
    lemma_one_record_per_prefix(targets.len(), prefixes);
    found.unique_seq_to_set();
    targets.unique_seq_to_set();
    assert(found.to_set().subset_of(targets.to_set())) by {
        assert forall|p: Seq<char>| found.to_set().contains(p) implies targets.to_set().contains(
            p,
        ) by {
            assert(found.contains(p));
            assert(prefixes.contains(p));
            let k = choose|k: int| 0 <= k < prefixes.len() && prefixes[k] == p;
            assert(targets.contains(prefixes[k]));
        }
    }
    if ledger.all_found {
        vstd::set_lib::lemma_subset_equality(found.to_set(), targets.to_set());
        assert forall|i: int| 0 <= i < targets.len() implies found.contains(#[trigger] targets[i])
            && prefixes.contains(targets[i]) by {
            assert(targets.contains(targets[i]));
            assert(targets.to_set().contains(targets[i]));
            assert(found.to_set().contains(targets[i]));
        }
        assert forall|j: int| 0 <= j < found.len() implies targets.contains(#[trigger] found[j]) by {
            assert(found.contains(found[j]));
            assert(found.to_set().contains(found[j]));
        }
    } else {
        if forall|i: int| 0 <= i < targets.len() ==> prefixes.contains(#[trigger] targets[i]) {
            assert(targets.to_set().subset_of(found.to_set())) by {
                assert forall|p: Seq<char>| targets.to_set().contains(p) implies found.to_set().contains(
                    p,
                ) by {
                    assert(targets.contains(p));
                    let i = choose|i: int| 0 <= i < targets.len() && targets[i] == p;
                    assert(prefixes.contains(targets[i]));
                }
            }
            vstd::set_lib::lemma_len_subset(targets.to_set(), found.to_set());
        }
    }
}

} // verus!
