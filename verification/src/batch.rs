//! The aggregation of a batch balance query: one lookup per requested
//! identifier, in the order given, with the decisions between two lookups.

use vstd::prelude::*;
use crate::error::{DomainError, ErrorCode};
use crate::model::{BalanceEntry, BankAccount};

verus! {

/// What the store answered to the lookup of one identifier.
pub type Lookup = Result<Option<BankAccount>, DomainError>;

/// A batch query between two lookups: the identifiers requested, how many of
/// them have been looked up, and the entries gathered from those.
#[derive(Debug)]
pub struct BalanceBatch {
    pub account_ids: Vec<String>,
    pub cursor: usize,
    pub balances: Vec<BalanceEntry>,
}

/// A batch query as a mathematical value.
pub struct BatchView {
    pub account_ids: Seq<String>,
    pub cursor: nat,
    pub balances: Seq<BalanceEntry>,
}

impl View for BalanceBatch {
    type V = BatchView;

    open spec fn view(&self) -> BatchView {
        BatchView {
            account_ids: self.account_ids@,
            cursor: self.cursor as nat,
            balances: self.balances@,
        }
    }
}

impl BatchView {
    /// The query before its first lookup.
    pub open spec fn start(account_ids: Seq<String>) -> BatchView {
        BatchView { account_ids, cursor: 0, balances: Seq::empty() }
    }

    /// An identifier is still to be looked up.
    pub open spec fn pending(self) -> bool {
        self.cursor < self.account_ids.len()
    }

    /// The query after the answer to the lookup of its pending identifier.
    /// A missing account adds nothing; a failed lookup ends the query with
    /// `InvalidParams`, whatever the failure was. With no identifier
    /// pending the answer answers nothing, and the query stays as it is.
    pub open spec fn step(self, found: Lookup) -> Result<BatchView, ErrorCode> {
        if !self.pending() {
            Ok(self)
        } else {
            match found {
                Err(_) => Err(ErrorCode::InvalidParams),
                Ok(None) => Ok(BatchView { cursor: self.cursor + 1, ..self }),
                Ok(Some(account)) => Ok(
                    BatchView {
                        cursor: self.cursor + 1,
                        balances: self.balances.push(
                            (self.account_ids[self.cursor as int], account.balance),
                        ),
                        ..self
                    },
                ),
            }
        }
    }

    /// The query after a series of answers, the first for the pending
    /// identifier, each next one for the identifier after it. Nothing is
    /// looked up after a failure.
    pub open spec fn run(self, answers: Seq<Lookup>) -> Result<BatchView, ErrorCode>
        decreases answers.len(),
    {
        if answers.len() == 0 {
            Ok(self)
        } else {
            match self.run(answers.drop_last()) {
                Err(code) => Err(code),
                Ok(state) => state.step(answers.last()),
            }
        }
    }
}

impl BalanceBatch {
    /// A query for `account_ids` that has looked up nothing yet.
    pub fn new(account_ids: Vec<String>) -> (batch: BalanceBatch)
        ensures
            batch@ == BatchView::start(account_ids@),
            batch.account_ids == account_ids,
    {
        BalanceBatch { account_ids, cursor: 0, balances: Vec::new() }
    }

    /// Opens a query once the requester's signature has been checked:
    /// `verified` is the verifier's answer. A request that failed
    /// verification is refused, and nothing is looked up for it.
    pub fn begin(verified: bool, account_ids: Vec<String>) -> (begun: Result<
        BalanceBatch,
        ErrorCode,
    >)
        ensures
            match begun {
                Ok(batch) => verified && batch@ == BatchView::start(account_ids@)
                    && batch.account_ids == account_ids,
                Err(code) => !verified && code == ErrorCode::InvalidParams,
            },
    {
        if verified {
            Ok(BalanceBatch::new(account_ids))
        } else {
            Err(ErrorCode::InvalidParams)
        }
    }

    /// The identifier to look up next, or `None` when all have been.
    pub fn pending(&self) -> (next: Option<&String>)
        ensures
            match next {
                Some(id) => self@.pending() && *id == self.account_ids@[self.cursor as int],
                None => !self@.pending(),
            },
    {
        if self.cursor < self.account_ids.len() {
            Some(&self.account_ids[self.cursor])
        } else {
            None
        }
    }

    /// Takes the store's answer for the pending identifier.
    pub fn record(self, found: Lookup) -> (next: Result<BalanceBatch, ErrorCode>)
        ensures
            match next {
                Ok(batch) => self@.step(found) == Ok::<BatchView, ErrorCode>(batch@),
                Err(code) => self@.step(found) == Err::<BatchView, ErrorCode>(code),
            },
    {
        let mut batch = self;
        if batch.cursor >= batch.account_ids.len() {
            return Ok(batch);
        }
        match found {
            Err(_) => Err(ErrorCode::InvalidParams),
            Ok(None) => {
                batch.cursor = batch.cursor + 1;
                Ok(batch)
            },
            Ok(Some(account)) => {
                let id = batch.account_ids[batch.cursor].clone();
                batch.balances.push((id, account.balance));
                batch.cursor = batch.cursor + 1;
                Ok(batch)
            },
        }
    }

    /// The report: the entries gathered, in the order of the request.
    pub fn finish(self) -> (balances: Vec<BalanceEntry>)
        ensures
            balances@ == self@.balances,
    {
        self.balances
    }
}

/// Whether one of the answers is a failed lookup.
pub open spec fn any_failed(answers: Seq<Lookup>) -> bool {
    exists|i: int| 0 <= i < answers.len() && answers[i] is Err
}

/// How many of the answers found an account.
pub open spec fn resolved(answers: Seq<Lookup>) -> nat
    decreases answers.len(),
{
    if answers.len() == 0 {
        0
    } else {
        resolved(answers.drop_last()) + if answers.last() matches Ok(Some(_)) {
            1nat
        } else {
            0nat
        }
    }
}

/// The report for identifiers whose lookups gave `answers`, one answer per
/// identifier from the first on: an entry for each account found, with the
/// identifier as requested, in the order of the request.
pub open spec fn gathered(account_ids: Seq<String>, answers: Seq<Lookup>) -> Seq<BalanceEntry>
    decreases answers.len(),
{
    if answers.len() == 0 {
        Seq::empty()
    } else {
        let before = gathered(account_ids, answers.drop_last());
        match answers.last() {
            Ok(Some(account)) => before.push((account_ids[answers.len() - 1], account.balance)),
            _ => before,
        }
    }
}

/// A query that is driven from its start through one answer per identifier
/// ends in `InvalidParams` if a lookup failed, and otherwise holds the report
/// for all the answers: nothing of a partial result survives a failure, and a
/// missing account is no failure.
pub proof fn lemma_run_from_start(account_ids: Seq<String>, answers: Seq<Lookup>)
    requires
        answers.len() <= account_ids.len(),
    ensures
        BatchView::start(account_ids).run(answers) == if any_failed(answers) {
            Err::<BatchView, ErrorCode>(ErrorCode::InvalidParams)
        } else {
            Ok::<BatchView, ErrorCode>(
                BatchView {
                    account_ids,
                    cursor: answers.len(),
                    balances: gathered(account_ids, answers),
                },
            )
        },
    decreases answers.len(),
{
    if answers.len() > 0 {
        let earlier = answers.drop_last();
        lemma_run_from_start(account_ids, earlier);
        if any_failed(earlier) {
            let i = choose|i: int| 0 <= i < earlier.len() && earlier[i] is Err;
            assert(answers[i] is Err);
        } else if answers.last() is Err {
            assert(answers[answers.len() - 1] is Err);
        } else {
            assert forall|i: int| 0 <= i < answers.len() implies !(answers[i] is Err) by {
                if i < earlier.len() {
                    assert(earlier[i] == answers[i]);
                }
            }
        }
    }
}

/// The report has one entry for each account found and no other.
pub proof fn lemma_gathered_len(account_ids: Seq<String>, answers: Seq<Lookup>)
    ensures
        gathered(account_ids, answers).len() == resolved(answers),
        resolved(answers) <= answers.len(),
    decreases answers.len(),
{
    if answers.len() > 0 {
        lemma_gathered_len(account_ids, answers.drop_last());
    }
}

/// The entry of an account found stands in the report behind the entries of
/// the accounts found before it, and holds the identifier as requested and
/// the balance of that account.
pub proof fn lemma_gathered_entry(account_ids: Seq<String>, answers: Seq<Lookup>, i: int)
    requires
        0 <= i < answers.len(),
        answers[i] matches Ok(Some(_)),
    ensures
        resolved(answers.take(i)) < gathered(account_ids, answers).len(),
        gathered(account_ids, answers)[resolved(answers.take(i)) as int] == (
            account_ids[i],
            answers[i]->Ok_0->Some_0.balance,
        ),
    decreases answers.len(),
{
    let earlier = answers.drop_last();
    lemma_gathered_len(account_ids, earlier);
    if i == answers.len() - 1 {
        assert(answers.take(i) == earlier);
    } else {
        lemma_gathered_entry(account_ids, earlier, i);
        assert(earlier.take(i) == answers.take(i));
    }
}

} // verus!
