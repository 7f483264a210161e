//! The completed ledger and the run over all pending invoices: which invoices
//! are pending, and how each outcome grows the ledger.
use vstd::prelude::*;
use crate::invoice::{CompletedInvoices, InvoiceCSV};

verus! {

/// The invoice numbers of ledger entries, in order.
pub open spec fn ledger_numbers(l: Seq<CompletedInvoices>) -> Seq<Seq<char>> {
    l.map_values(|c: CompletedInvoices| c.invoice_number@)
}

/// An invoice is pending: its currency is accepted and its number is not in the ledger.
pub open spec fn is_pending(inv: InvoiceCSV, done: Seq<Seq<char>>) -> bool {
    inv.is_valid() && !done.contains(inv.invoice_number@)
}

/// `r` lists, in increasing order, exactly the indices of the pending invoices.
pub open spec fn is_pending_list(invoices: Seq<InvoiceCSV>, done: Seq<Seq<char>>, r: Seq<usize>) -> bool {
    &&& forall|k: int| 0 <= k < r.len() ==> #[trigger] r[k] < invoices.len()
    &&& forall|k: int| 0 <= k < r.len() ==> is_pending(#[trigger] invoices[r[k] as int], done)
    &&& forall|k: int, l: int| 0 <= k < l < r.len() ==> r[k] < r[l]
    &&& forall|i: int| 0 <= i < invoices.len() && is_pending(#[trigger] invoices[i], done) ==> r.contains(i as usize)
}

/// The invoice numbers of the invoices at `idx`.
pub open spec fn numbers_at(invoices: Seq<InvoiceCSV>, idx: Seq<usize>) -> Seq<Seq<char>> {
    idx.map_values(|i: usize| invoices[i as int].invoice_number@)
}

/// The ledger after invoices numbered `attempted` were uploaded with the
/// given outcomes, in order, starting from `start`: each success appends its number.
pub open spec fn run_ledger(start: Seq<Seq<char>>, attempted: Seq<Seq<char>>, outcomes: Seq<bool>) -> Seq<Seq<char>>
    decreases attempted.len(),
{
    if attempted.len() == 0 || outcomes.len() == 0 {
        start
    } else {
        let prev = run_ledger(start, attempted.drop_last(), outcomes.drop_last());
        if outcomes.last() {
            prev.push(attempted.last())
        } else {
            prev
        }
    }
}

/// The texts of a list of strings.
pub open spec fn views_of(v: Seq<String>) -> Seq<Seq<char>> {
    v.map_values(|s: String| s@)
}

/// Whether the ledger holds the invoice number `number`.
pub fn ledger_contains(done: &Vec<CompletedInvoices>, number: &String) -> (r: bool)
    ensures
        r == ledger_numbers(done@).contains(number@),
{
    let mut i: usize = 0;
    while i < done.len()
        invariant
            i <= done@.len(),
            forall|j: int| 0 <= j < i ==> ledger_numbers(done@)[j] != number@,
        decreases done@.len() - i,
    {
        if done[i].invoice_number.eq(number) {
            assert(ledger_numbers(done@)[i as int] == number@);
            return true;
        }
        i = i + 1;
    }
    false
}

/// The ledger read from storage: empty when there is no stored ledger (a
/// first run), else one entry per stored number, in order.
pub fn try_read_done_invoices_csv(stored: Option<Vec<String>>) -> (r: Vec<CompletedInvoices>)
    ensures
        stored is None ==> r@.len() == 0,
        stored is Some ==> ledger_numbers(r@) == views_of(stored->0@),
{
    match stored {
        None => Vec::new(),
        Some(numbers) => {
            let mut r: Vec<CompletedInvoices> = Vec::new();
            let mut i: usize = 0;
            while i < numbers.len()
                invariant
                    i <= numbers@.len(),
                    ledger_numbers(r@) == views_of(numbers@.subrange(0, i as int)),
                decreases numbers@.len() - i,
            {
                let ghost old_r = r@;
                r.push(CompletedInvoices { invoice_number: numbers[i].clone() });
                assert(ledger_numbers(r@) =~= ledger_numbers(old_r).push(numbers@[i as int]@));
                assert(views_of(numbers@.subrange(0, i + 1)) =~= views_of(numbers@.subrange(0, i as int)).push(
                    numbers@[i as int]@,
                ));
                i = i + 1;
            }
            assert(numbers@.subrange(0, i as int) =~= numbers@);
            r
        },
    }
}

/// The indices of the pending invoices, in the order of the invoice source.
pub fn pending_invoices(invoices: &Vec<InvoiceCSV>, done: &Vec<CompletedInvoices>) -> (r: Vec<usize>)
    ensures
        is_pending_list(invoices@, ledger_numbers(done@), r@),
{
    let mut r: Vec<usize> = Vec::new();
    let mut i: usize = 0;
    while i < invoices.len()
        invariant
            i <= invoices@.len(),
            forall|k: int| 0 <= k < r@.len() ==> #[trigger] r@[k] < i,
            forall|k: int|
                0 <= k < r@.len() ==> is_pending(#[trigger] invoices@[r@[k] as int], ledger_numbers(done@)),
            forall|k: int, l: int| 0 <= k < l < r@.len() ==> r@[k] < r@[l],
            forall|j: int|
                0 <= j < i && is_pending(#[trigger] invoices@[j], ledger_numbers(done@)) ==> r@.contains(
                    j as usize,
                ),
        decreases invoices@.len() - i,
    {
        let inv = &invoices[i];
        if inv.validate() && !ledger_contains(done, &inv.invoice_number) {
            assert(is_pending(invoices@[i as int], ledger_numbers(done@)));
            let ghost old_r = r@;
            r.push(i);
            assert(r@[r@.len() - 1] == i);
            assert forall|j: usize| old_r.contains(j) implies r@.contains(j) by {
                let k = choose|k: int| 0 <= k < old_r.len() && old_r[k] == j;
                assert(r@[k] == j);
            }
        }
        i = i + 1;
    }
    r
}

/// A number is in the grown ledger exactly when it was loaded or an upload
/// of that number succeeded.
pub proof fn lemma_run_ledger_members(
    start: Seq<Seq<char>>,
    attempted: Seq<Seq<char>>,
    outcomes: Seq<bool>,
    x: Seq<char>,
)
    requires
        attempted.len() == outcomes.len(),
    ensures
        run_ledger(start, attempted, outcomes).contains(x) <==> (start.contains(x) || exists|k: int|
            0 <= k < attempted.len() && outcomes[k] && attempted[k] == x),
    decreases attempted.len(),
{
    if attempted.len() > 0 {
        let a = attempted.drop_last();
        let o = outcomes.drop_last();
        let last = attempted.len() - 1;
        lemma_run_ledger_members(start, a, o, x);
        let prev = run_ledger(start, a, o);
        if outcomes.last() {
            assert(prev.push(attempted.last()).contains(x) <==> (prev.contains(x) || attempted.last() == x)) by {
                if prev.push(attempted.last()).contains(x) && attempted.last() != x {
                    let i = choose|i: int| 0 <= i < prev.len() + 1 && prev.push(attempted.last())[i] == x;
                    assert(prev[i] == x);
                }
                if prev.contains(x) {
                    let i = choose|i: int| 0 <= i < prev.len() && prev[i] == x;
                    assert(prev.push(attempted.last())[i] == x);
                }
                if attempted.last() == x {
                    assert(prev.push(attempted.last())[prev.len() as int] == x);
                }
            }
        }
        if exists|k: int| 0 <= k < attempted.len() && outcomes[k] && attempted[k] == x {
            let k = choose|k: int| 0 <= k < attempted.len() && outcomes[k] && attempted[k] == x;
            if k < last {
                assert(o[k] && a[k] == x);
            }
        }
        if exists|k: int| 0 <= k < a.len() && o[k] && a[k] == x {
            let k = choose|k: int| 0 <= k < a.len() && o[k] && a[k] == x;
            assert(outcomes[k] && attempted[k] == x);
        }
    }
}

/// Entries loaded before a run are still in the ledger after it, whatever
/// the outcome of each upload.
pub proof fn law_ledger_monotone(start: Seq<Seq<char>>, attempted: Seq<Seq<char>>, outcomes: Seq<bool>)
    requires
        attempted.len() == outcomes.len(),
    ensures
        forall|x: Seq<char>| start.contains(x) ==> #[trigger] run_ledger(start, attempted, outcomes).contains(x),
{
    assert forall|x: Seq<char>| start.contains(x) implies #[trigger] run_ledger(start, attempted, outcomes).contains(x) by {
        lemma_run_ledger_members(start, attempted, outcomes, x);
    }
}

/// When the upload of invoice `a` fails and that of invoice `b` succeeds, the
/// ledger after the run holds `b`'s number and not `a`'s, provided `a`'s
/// number was not loaded (it was pending) and no other invoice with the same
/// number succeeded.
pub proof fn law_failure_isolated(
    start: Seq<Seq<char>>,
    attempted: Seq<Seq<char>>,
    outcomes: Seq<bool>,
    a: int,
    b: int,
)
    requires
        attempted.len() == outcomes.len(),
        0 <= a < attempted.len(),
        0 <= b < attempted.len(),
        !outcomes[a],
        outcomes[b],
        !start.contains(attempted[a]),
        forall|k: int| 0 <= k < attempted.len() && outcomes[k] ==> attempted[k] != attempted[a],
    ensures
        run_ledger(start, attempted, outcomes).contains(attempted[b]),
        !run_ledger(start, attempted, outcomes).contains(attempted[a]),
{
    lemma_run_ledger_members(start, attempted, outcomes, attempted[b]);
    lemma_run_ledger_members(start, attempted, outcomes, attempted[a]);
}

/// A record whose currency is not the accepted one is never pending.
pub proof fn law_invalid_never_pending(invoices: Seq<InvoiceCSV>, done: Seq<Seq<char>>, r: Seq<usize>, i: usize)
    requires
        is_pending_list(invoices, done, r),
        i < invoices.len(),
        !invoices[i as int].is_valid(),
    ensures
        !r.contains(i),
{
    if r.contains(i) {
        let k = choose|k: int| 0 <= k < r.len() && r[k] == i;
        assert(is_pending(invoices[r[k] as int], done));
    }
}

/// Nothing is pending when the ledger holds the number of every invoice.
pub proof fn law_nothing_pending(invoices: Seq<InvoiceCSV>, done: Seq<Seq<char>>, r: Seq<usize>)
    requires
        is_pending_list(invoices, done, r),
        forall|i: int| 0 <= i < invoices.len() ==> done.contains(#[trigger] invoices[i].invoice_number@),
    ensures
        r.len() == 0,
{
    if r.len() > 0 {
        assert(is_pending(invoices[r[0] as int], done));
    }
}

/// Running twice with the same invoices: when every upload of the first run
/// succeeded, the second run has nothing to upload.
pub proof fn law_second_run_idle(
    invoices: Seq<InvoiceCSV>,
    done: Seq<Seq<char>>,
    pending: Seq<usize>,
    outcomes: Seq<bool>,
    again: Seq<usize>,
)
    requires
        is_pending_list(invoices, done, pending),
        outcomes.len() == pending.len(),
        forall|k: int| 0 <= k < outcomes.len() ==> outcomes[k],
        is_pending_list(invoices, run_ledger(done, numbers_at(invoices, pending), outcomes), again),
    ensures
        again.len() == 0,
{
    let after = run_ledger(done, numbers_at(invoices, pending), outcomes);
    if again.len() > 0 {
        let i = again[0] as int;
        assert(is_pending(invoices[i], after));
        lemma_run_ledger_members(done, numbers_at(invoices, pending), outcomes, invoices[i].invoice_number@);
        if !done.contains(invoices[i].invoice_number@) {
            assert(is_pending(invoices[i], done));
            let k = choose|k: int| 0 <= k < pending.len() && pending[k] == i as usize;
            assert(numbers_at(invoices, pending)[k] == invoices[i].invoice_number@);
        }
    }
}

/// A run of the uploads over the pending invoices, and the ledger it grows.
pub struct SyncRun {
    /// The ledger: the loaded entries, then one per successful upload.
    pub ledger: Vec<CompletedInvoices>,
    /// The indices of the pending invoices, in source order.
    pub pending: Vec<usize>,
    /// How many pending invoices have been attempted.
    pub position: usize,
    pub succeeded: usize,
    pub failed: usize,
    /// The numbers of the loaded ledger.
    pub loaded: Ghost<Seq<Seq<char>>>,
    /// The outcome of each attempted upload.
    pub outcomes: Ghost<Seq<bool>>,
}

impl SyncRun {
    /// The run is consistent with `invoices`: the ledger is the loaded one
    /// grown by the outcomes so far.
    pub open spec fn wf(&self, invoices: Seq<InvoiceCSV>) -> bool {
        &&& forall|k: int| 0 <= k < self.pending@.len() ==> #[trigger] self.pending@[k] < invoices.len()
        &&& self.position <= self.pending@.len()
        &&& self.outcomes@.len() == self.position
        &&& self.succeeded + self.failed == self.position
        &&& ledger_numbers(self.ledger@) == run_ledger(
            self.loaded@,
            numbers_at(invoices, self.pending@.subrange(0, self.position as int)),
            self.outcomes@,
        )
    }

    /// Starts a run over `invoices` with the loaded ledger `done`.
    pub fn start(invoices: &Vec<InvoiceCSV>, done: Vec<CompletedInvoices>) -> (r: SyncRun)
        ensures
            r.wf(invoices@),
            r.position == 0,
            r.loaded@ == ledger_numbers(done@),
            r.ledger@ == done@,
            is_pending_list(invoices@, ledger_numbers(done@), r.pending@),
    {
        let pending = pending_invoices(invoices, &done);
        SyncRun {
            ledger: done,
            pending,
            position: 0,
            succeeded: 0,
            failed: 0,
            loaded: Ghost(ledger_numbers(done@)),
            outcomes: Ghost(Seq::empty()),
        }
    }

    /// The index of the next invoice to upload, if any is left.
    pub fn next_invoice(&self) -> (r: Option<usize>)
        ensures
            self.position < self.pending@.len() ==> r == Some(self.pending@[self.position as int]),
            self.position >= self.pending@.len() ==> r is None,
    {
        if self.position < self.pending.len() {
            Some(self.pending[self.position])
        } else {
            None
        }
    }

    /// Records the outcome of the upload of the next pending invoice: a
    /// success appends its raw invoice number to the ledger, a failure leaves
    /// the ledger as it is.
    pub fn record_result(&mut self, invoices: &Vec<InvoiceCSV>, uploaded: bool)
        requires
            old(self).wf(invoices@),
            old(self).position < old(self).pending@.len(),
        ensures
            final(self).wf(invoices@),
            final(self).position == old(self).position + 1,
            final(self).pending == old(self).pending,
            final(self).loaded == old(self).loaded,
            final(self).outcomes@ == old(self).outcomes@.push(uploaded),
            uploaded ==> ledger_numbers(final(self).ledger@) == ledger_numbers(old(self).ledger@).push(
                invoices@[old(self).pending@[old(self).position as int] as int].invoice_number@,
            ),
            !uploaded ==> final(self).ledger@ == old(self).ledger@,
            final(self).succeeded == old(self).succeeded + if uploaded { 1usize } else { 0usize },
            final(self).failed == old(self).failed + if uploaded { 0usize } else { 1usize },
    {
        let n = self.pending.len();
        let ghost old_attempted = numbers_at(invoices@, self.pending@.subrange(0, self.position as int));
        let idx = self.pending[self.position];
        if uploaded {
            let entry = CompletedInvoices::new(&invoices[idx]);
            self.ledger.push(entry);
            self.succeeded = self.succeeded + 1;
        } else {
            self.failed = self.failed + 1;
        }
        self.outcomes = Ghost(self.outcomes@.push(uploaded));
        self.position = self.position + 1;
        proof {
            let attempted = numbers_at(invoices@, self.pending@.subrange(0, self.position as int));
            assert(attempted.drop_last() =~= old_attempted);
            assert(self.outcomes@.drop_last() =~= old(self).outcomes@);
            assert(ledger_numbers(self.ledger@) =~= if uploaded {
                ledger_numbers(old(self).ledger@).push(attempted.last())
            } else {
                ledger_numbers(old(self).ledger@)
            });
        }
    }

    /// The ledger to persist at the end of the run.
    pub fn into_ledger(self) -> (r: Vec<CompletedInvoices>)
        ensures
            r@ == self.ledger@,
    {
        self.ledger
    }
}

} // verus!
