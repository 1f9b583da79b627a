//! The records that pass through the gateway.

use vstd::prelude::*;

verus! {

/// A point in time: seconds since the Unix epoch and the nanoseconds within
/// that second.
#[derive(Clone, Copy, Debug, PartialEq, Eq)]
pub struct Timestamp {
    pub secs: i64,
    pub nanos: u32,
}

/// A bank account as the store keeps it. The card number is the key for
/// cardholders' queries, the on-chain account identifier the key for balance
/// queries.
#[derive(Clone, Debug, PartialEq, Eq)]
pub struct BankAccount {
    pub id: u128,
    pub card_number: String,
    pub card_holder_first_name: String,
    pub card_holder_last_name: String,
    pub card_cvv: String,
    pub card_expiration_date: Timestamp,
    /// In the smallest unit of the currency.
    pub balance: u32,
    pub account_id: Option<String>,
    /// Counts the state-changing operations on the account.
    pub nonce: u32,
}

/// Whether money entered or left the account.
#[derive(Clone, Copy, Debug, PartialEq, Eq)]
pub enum Direction {
    Credit,
    Debit,
}

/// A transaction of one bank account. The gateway hands transactions on and
/// reads nothing in them.
#[derive(Clone, Debug, PartialEq, Eq)]
pub struct Transaction {
    pub id: u128,
    pub bank_account_id: u128,
    pub amount: u32,
    pub direction: Direction,
    pub timestamp: Timestamp,
}

/// One line of a balance report: the identifier as it was requested and the
/// balance of the account it resolved to.
pub type BalanceEntry = (String, u32);

} // verus!
