//! The gateway itself: the four operations it offers, each as the decisions
//! the gateway takes around the work of its collaborators.
//!
//! An operation starts with what the caller sent and yields what is to be
//! asked of the message processor or the store. The answer is handed to the
//! value that the start returned, which yields the reply or the next
//! question. The gateway keeps nothing between two calls.

use vstd::prelude::*;
use crate::batch::{BalanceBatch, BatchView, Lookup};
use crate::canonical::{canonical_form, canonical_message, identifier_bytes};
use crate::error::{caller_code, map_domain_error, DomainError, ErrorCode};
use crate::model::{BankAccount, Transaction};
use crate::signature::{
    sr25519_valid, verify, PublicKey, Signature, MAX_MESSAGE_LENGTH, SIGNATURE_LENGTH,
};

verus! {

/// The gateway. Its one piece of configuration is the public key of the
/// off-chain worker, fixed when the gateway is made.
#[derive(Clone, Copy, Debug)]
pub struct OracleApiImpl {
    pub signer: PublicKey,
}

/// A submitted message on its way to the message processor.
#[derive(Debug)]
pub struct Submission {
    /// The message to process, as the caller sent it.
    pub iso_msg: Vec<u8>,
}

/// A query for the bank account of a card.
#[derive(Debug)]
pub struct AccountQuery {
    /// The card number to look up.
    pub card_number: String,
}

/// A query for the transactions of a card, before the card's account is
/// known.
#[derive(Debug)]
pub struct TransactionsQuery {
    /// The card number to look up.
    pub card_number: String,
}

/// A query for the transactions of a card, once its account is known.
#[derive(Debug)]
pub struct TransactionsListing {
    /// The bank account whose transactions are to be listed.
    pub bank_account_id: u128,
}

/// The reply to a submission: the processor's response as it is, or the code
/// that stands for the processor's failure.
pub open spec fn submission_reply(processed: Result<Vec<u8>, DomainError>) -> Result<
    Vec<u8>,
    ErrorCode,
> {
    match processed {
        Ok(response) => Ok(response),
        Err(err) => Err(caller_code(err)),
    }
}

/// The reply to a query for a bank account: the account found, or
/// `InvalidParams` whether the card is unknown or the lookup failed.
pub open spec fn account_reply(found: Lookup) -> Result<BankAccount, ErrorCode> {
    match found {
        Ok(Some(account)) => Ok(account),
        _ => Err(ErrorCode::InvalidParams),
    }
}

/// The account whose transactions a query lists: that of the card, or
/// `InvalidParams` whether the card is unknown or the lookup failed.
pub open spec fn listing_owner(found: Lookup) -> Result<u128, ErrorCode> {
    match found {
        Ok(Some(account)) => Ok(account.id),
        _ => Err(ErrorCode::InvalidParams),
    }
}

/// The reply to a query for transactions: the store's list as it is, or the
/// code that stands for the store's failure.
pub open spec fn listing_reply(listed: Result<Vec<Transaction>, DomainError>) -> Result<
    Vec<Transaction>,
    ErrorCode,
> {
    match listed {
        Ok(transactions) => Ok(transactions),
        Err(err) => Err(caller_code(err)),
    }
}

impl Submission {
    /// Decides the reply from what the message processor returned.
    pub fn complete(self, processed: Result<Vec<u8>, DomainError>) -> (reply: Result<
        Vec<u8>,
        ErrorCode,
    >)
        ensures
            reply == submission_reply(processed),
    {
        match processed {
            Ok(response) => Ok(response),
            Err(err) => Err(map_domain_error(&err)),
        }
    }
}

impl AccountQuery {
    /// Decides the reply from what the store found for the card number.
    pub fn complete(self, found: Lookup) -> (reply: Result<BankAccount, ErrorCode>)
        ensures
            reply == account_reply(found),
    {
        match found {
            Ok(Some(account)) => Ok(account),
            _ => Err(ErrorCode::InvalidParams),
        }
    }
}

impl TransactionsQuery {
    /// Decides from what the store found for the card number whether there
    /// are transactions to list, and whose.
    pub fn owner_found(self, found: Lookup) -> (next: Result<TransactionsListing, ErrorCode>)
        ensures
            match next {
                Ok(listing) => listing_owner(found) == Ok::<u128, ErrorCode>(
                    listing.bank_account_id,
                ),
                Err(code) => listing_owner(found) == Err::<u128, ErrorCode>(code),
            },
    {
        match found {
            Ok(Some(account)) => Ok(TransactionsListing { bank_account_id: account.id }),
            _ => Err(ErrorCode::InvalidParams),
        }
    }
}

impl TransactionsListing {
    /// Decides the reply from what the store listed for the account.
    pub fn complete(self, listed: Result<Vec<Transaction>, DomainError>) -> (reply: Result<
        Vec<Transaction>,
        ErrorCode,
    >)
        ensures
            reply == listing_reply(listed),
    {
        match listed {
            Ok(transactions) => Ok(transactions),
            Err(err) => Err(map_domain_error(&err)),
        }
    }
}

impl OracleApiImpl {
    /// A gateway that takes batch queries from the holder of `signer`.
    pub fn new(signer: PublicKey) -> (gateway: OracleApiImpl)
        ensures
            gateway.signer == signer,
    {
        OracleApiImpl { signer }
    }

    /// Whether a batch query is let through: the signature has the length
    /// of one, identifiers are named, and the signature is valid under the
    /// gateway's key for the canonical message of the identifiers.
    pub open spec fn authorizes(self, signature: Seq<u8>, account_ids: Seq<String>) -> bool {
        let message = canonical_form(identifier_bytes(account_ids));
        &&& signature.len() == SIGNATURE_LENGTH
        &&& account_ids.len() > 0
        &&& message.len() <= MAX_MESSAGE_LENGTH
        &&& sr25519_valid(signature, message, self.signer.0@)
    }

    /// Takes a message for processing. It goes to the processor unread and
    /// unchanged, whatever it holds.
    pub fn submit_iso8583(&self, iso_msg: Vec<u8>) -> (submission: Submission)
        ensures
            submission.iso_msg == iso_msg,
    {
        Submission { iso_msg }
    }

    /// Takes a query for the transactions of a card.
    pub fn get_transactions(&self, card_number: String) -> (query: TransactionsQuery)
        ensures
            query.card_number == card_number,
    {
        TransactionsQuery { card_number }
    }

    /// Takes a query for the bank account of a card.
    pub fn get_bank_account(&self, card_number: String) -> (query: AccountQuery)
        ensures
            query.card_number == card_number,
    {
        AccountQuery { card_number }
    }

    /// Takes a query for the balances of the accounts named, which only the
    /// holder of the gateway's key may make. A query that is let through
    /// starts with all its lookups ahead; any other is refused with
    /// `InvalidParams`, which does not tell why.
    pub fn get_batch_balances(&self, signature: Vec<u8>, account_ids: Vec<String>) -> (started:
        Result<BalanceBatch, ErrorCode>)
        ensures
            match started {
                Ok(batch) => self.authorizes(signature@, account_ids@) && batch@
                    == BatchView::start(account_ids@) && batch.account_ids == account_ids,
                Err(code) => !self.authorizes(signature@, account_ids@) && code
                    == ErrorCode::InvalidParams,
            },
    {
        let signature = match Signature::from_bytes(&signature) {
            Some(signature) => signature,
            None => {
                return Err(ErrorCode::InvalidParams);
            },
        };
        let message = match canonical_message(&account_ids) {
            Ok(message) => message,
            Err(code) => {
                return Err(code);
            },
        };
        let verified = verify(&signature, message.as_slice(), &self.signer);
        BalanceBatch::begin(verified, account_ids)
    }
}

/// A query for an unknown card and a query whose lookup failed get the same
/// reply, `InvalidParams`: the reply does not tell them apart.
pub proof fn lemma_account_reply_hides_cause(err: DomainError)
    ensures
        account_reply(Err(err)) == account_reply(Ok(None)),
        account_reply(Ok(None)) == Err::<BankAccount, ErrorCode>(ErrorCode::InvalidParams),
{
}

/// Whether a batch query is let through depends on its identifiers only
/// through their canonical message: it is the message that is signed, not
/// the list.
pub proof fn lemma_authorization_goes_by_message(
    gateway: OracleApiImpl,
    signature: Seq<u8>,
    a: Seq<String>,
    b: Seq<String>,
)
    requires
        a.len() > 0,
        b.len() > 0,
        canonical_form(identifier_bytes(a)) == canonical_form(identifier_bytes(b)),
    ensures
        gateway.authorizes(signature, a) == gateway.authorizes(signature, b),
{
}

} // verus!
