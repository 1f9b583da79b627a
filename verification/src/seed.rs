//! The fixed accounts of a development setup: what is asked of the store for
//! each of them, and what is expected back.

use vstd::prelude::*;
use vstd::string::StrSliceExecFns;
use crate::model::{BankAccount, Timestamp};

verus! {

/// Months for which the card of a development account stays valid.
pub const VALID_FOR_MONTHS: u32 = 48;

/// Months since which the one expired card among them has been expired.
pub const EXPIRED_SINCE_MONTHS: u32 = 2;

/// A development account as it is configured.
#[derive(Clone, Debug, PartialEq, Eq)]
pub struct DevAccount {
    /// The cardholder's name, used as first and as last name.
    pub name: String,
    pub card_number: String,
    pub card_cvv: String,
    pub balance: u32,
    /// The on-chain account, in hexadecimal, with or without `0x` in front.
    pub account_id: String,
}

/// What the store is asked to create.
#[derive(Clone, Debug, PartialEq, Eq)]
pub struct BankAccountCreate {
    pub id: u128,
    pub card_number: String,
    pub card_holder_first_name: String,
    pub card_holder_last_name: String,
    pub card_cvv: String,
    pub card_expiration_date: Timestamp,
    pub balance: u32,
    pub account_id: Option<String>,
}

/// The moment `months` calendar months after the moment given, in UTC, with
/// the last day of the month where the day does not exist there; `None`
/// where one of the two moments cannot be represented.
pub uninterp spec fn utc_months_after(secs: i64, nanos: u32, months: u32) -> Option<(i64, u32)>;

/// The moment `months` calendar months before the moment given, in the same
/// terms as `utc_months_after`.
pub uninterp spec fn utc_months_before(secs: i64, nanos: u32, months: u32) -> Option<(i64, u32)>;

/// Calls `chrono::DateTime::<Utc>::checked_add_months` on the moment that
/// `DateTime::from_timestamp` makes of the seconds and nanoseconds, and gives
/// the result back as seconds and nanoseconds. In UTC this is calendar
/// arithmetic on the arguments alone.
#[verifier::external_body]
fn chrono_add_months(at: Timestamp, months: u32) -> (shifted: Option<Timestamp>)
    ensures
        match shifted {
            Some(t) => utc_months_after(at.secs, at.nanos, months) == Some((t.secs, t.nanos)),
            None => utc_months_after(at.secs, at.nanos, months) is None,
        },
{
    let moment = chrono::DateTime::from_timestamp(at.secs, at.nanos)?;
    let shifted = moment.checked_add_months(chrono::Months::new(months))?;
    Some(Timestamp { secs: shifted.timestamp(), nanos: shifted.timestamp_subsec_nanos() })
}

/// Calls `chrono::DateTime::<Utc>::checked_sub_months` in the way that
/// `chrono_add_months` calls its counterpart.
#[verifier::external_body]
fn chrono_sub_months(at: Timestamp, months: u32) -> (shifted: Option<Timestamp>)
    ensures
        match shifted {
            Some(t) => utc_months_before(at.secs, at.nanos, months) == Some((t.secs, t.nanos)),
            None => utc_months_before(at.secs, at.nanos, months) is None,
        },
{
    let moment = chrono::DateTime::from_timestamp(at.secs, at.nanos)?;
    let shifted = moment.checked_sub_months(chrono::Months::new(months))?;
    Some(Timestamp { secs: shifted.timestamp(), nanos: shifted.timestamp_subsec_nanos() })
}

/// The one cardholder whose card has expired.
pub open spec fn holds_expired_card(name: Seq<char>) -> bool {
    name == seq!['E', 'v', 'e']
}

/// When the card of a development account expires, seen from `now`: two
/// months ago for the holder of the expired card, in four years for all
/// others.
pub open spec fn expiration_from(name: Seq<char>, now: Timestamp) -> Option<(i64, u32)> {
    if holds_expired_card(name) {
        utc_months_before(now.secs, now.nanos, EXPIRED_SINCE_MONTHS)
    } else {
        utc_months_after(now.secs, now.nanos, VALID_FOR_MONTHS)
    }
}

/// Computes the expiration date for the card of a development account.
/// `None` means that the date cannot be represented.
pub fn dev_account_expiration(name: &String, now: Timestamp) -> (expiration: Option<Timestamp>)
    ensures
        match expiration {
            Some(t) => expiration_from(name@, now) == Some((t.secs, t.nanos)),
            None => expiration_from(name@, now) is None,
        },
{
    let expired = "Eve".to_owned();
    proof {
        reveal_strlit("Eve");
        assert(expired@ =~= seq!['E', 'v', 'e']);
    }
    if *name == expired {
        chrono_sub_months(now, EXPIRED_SINCE_MONTHS)
    } else {
        chrono_add_months(now, VALID_FOR_MONTHS)
    }
}

/// The text without any `0x` at its start, however often it is repeated.
pub open spec fn without_hex_prefix(text: Seq<char>) -> Seq<char>
    decreases text.len(),
{
    if text.len() >= 2 && text[0] == '0' && text[1] == 'x' {
        without_hex_prefix(text.skip(2))
    } else {
        text
    }
}

/// Removes every leading `0x` from an account identifier.
pub fn strip_hex_prefix(text: &str) -> (stripped: String)
    ensures
        stripped@ == without_hex_prefix(text@),
{
    let length = text.unicode_len();
    let mut start: usize = 0;
    proof {
        assert(text@.skip(0) == text@);
    }
    loop
        invariant
            start <= length,
            length == text@.len(),
            without_hex_prefix(text@) == without_hex_prefix(text@.skip(start as int)),
        ensures
            start <= length,
            without_hex_prefix(text@) == text@.skip(start as int),
        decreases length - start,
    {
        if length - start < 2 {
            break ;
        }
        if text.get_char(start) != '0' {
            break ;
        }
        if text.get_char(start + 1) != 'x' {
            break ;
        }
        proof {
            assert(text@.skip(start as int).skip(2) == text@.skip(start + 2));
        }
        start += 2;
    }
    proof {
        assert(text@.skip(start as int) == text@.subrange(start as int, length as int));
    }
    text.substring_char(start, length).to_owned()
}

/// What is asked of the store for a development account, given the
/// identifier drawn for it and the expiration date of its card.
pub fn dev_account_create(account: &DevAccount, id: u128, expiration: Timestamp) -> (create:
    BankAccountCreate)
    ensures
        create.id == id,
        create.card_number == account.card_number,
        create.card_holder_first_name == account.name,
        create.card_holder_last_name == account.name,
        create.card_cvv == account.card_cvv,
        create.card_expiration_date == expiration,
        create.balance == account.balance,
        create.account_id matches Some(chain_id) && chain_id@ == without_hex_prefix(
            account.account_id@,
        ),
{
    BankAccountCreate {
        id,
        card_number: account.card_number.clone(),
        card_holder_first_name: account.name.clone(),
        card_holder_last_name: account.name.clone(),
        card_cvv: account.card_cvv.clone(),
        card_expiration_date: expiration,
        balance: account.balance,
        account_id: Some(strip_hex_prefix(account.account_id.as_str())),
    }
}

/// Whether the store created the account that was asked for: the card
/// number and the balance of the configuration, and a fresh nonce.
pub fn seeded_as_requested(created: &BankAccount, account: &DevAccount) -> (faithful: bool)
    ensures
        faithful == (created.card_number@ == account.card_number@ && created.balance
            == account.balance && created.nonce == 0),
{
    created.card_number == account.card_number && created.balance == account.balance
        && created.nonce == 0
}

} // verus!
