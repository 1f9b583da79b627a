//! Signatures of the account system of the chain, and their verification.

use vstd::prelude::*;

verus! {

/// Bytes in a signature.
pub const SIGNATURE_LENGTH: usize = 64;

/// Bytes in a public key.
pub const PUBLIC_KEY_LENGTH: usize = 32;

/// The longest message that can be verified.
pub const MAX_MESSAGE_LENGTH: usize = 0xffff_ffff;

/// A signature, as the bytes that travel.
#[derive(Clone, Copy, Debug)]
pub struct Signature(pub [u8; 64]);

/// The public key of a signer.
#[derive(Clone, Copy, Debug)]
pub struct PublicKey(pub [u8; 32]);

impl Signature {
    /// Reads a signature from the bytes a caller sent: any 64 bytes are one,
    /// and nothing else is.
    pub fn from_bytes(raw: &Vec<u8>) -> (decoded: Option<Signature>)
        ensures
            decoded is Some <==> raw.len() == SIGNATURE_LENGTH,
            decoded matches Some(signature) ==> signature.0@ == raw@,
    {
        if raw.len() != SIGNATURE_LENGTH {
            return None;
        }
        let mut bytes: [u8; 64] = [0u8; 64];
        let mut i: usize = 0;
        while i < SIGNATURE_LENGTH
            invariant
                i <= SIGNATURE_LENGTH,
                raw.len() == SIGNATURE_LENGTH,
                forall|j: int| 0 <= j < i ==> bytes@[j] == raw@[j],
            decreases SIGNATURE_LENGTH - i,
        {
            bytes[i] = raw[i];
            i += 1;
        }
        assert(bytes@ =~= raw@);
        Some(Signature(bytes))
    }
}

/// Whether `signature` is a valid sr25519 signature of `message` under
/// `public_key`, in the signing context of the chain. It is a function of
/// these three byte strings and of nothing else.
pub uninterp spec fn sr25519_valid(signature: Seq<u8>, message: Seq<u8>, public_key: Seq<u8>) -> bool;

/// Calls `subxt_signer::sr25519::verify`, which decodes the signature and the
/// key and checks the Schnorr equation over the transcript of the message. The
/// answer is determined by the three byte strings; messages longer than
/// `MAX_MESSAGE_LENGTH` are kept out because the transcript refuses them.
#[verifier::external_body]
fn sr25519_verify(signature: &Signature, message: &[u8], public_key: &PublicKey) -> (valid: bool)
    requires
        message@.len() <= MAX_MESSAGE_LENGTH,
    ensures
        valid == sr25519_valid(signature.0@, message@, public_key.0@),
{
    subxt_signer::sr25519::verify(
        &subxt_signer::sr25519::Signature(signature.0),
        message,
        &subxt_signer::sr25519::PublicKey(public_key.0),
    )
}

/// What `verify` answers: the message is short enough to be verified and
/// the signature is valid for it.
pub open spec fn verifies(signature: Signature, message: Seq<u8>, public_key: PublicKey) -> bool {
    message.len() <= MAX_MESSAGE_LENGTH && sr25519_valid(signature.0@, message, public_key.0@)
}

/// Checks a signature against the exact bytes of a message.
pub fn verify(signature: &Signature, message: &[u8], public_key: &PublicKey) -> (valid: bool)
    ensures
        valid == verifies(*signature, message@, *public_key),
{
    if message.len() > MAX_MESSAGE_LENGTH {
        return false;
    }
    sr25519_verify(signature, message, public_key)
}

/// The answer of `verify` is a function of the bytes of the signature, of
/// the message and of the key: the same bytes get the same answer, whenever
/// and wherever they are checked.
pub proof fn lemma_verification_goes_by_bytes(
    signature: Signature,
    other_signature: Signature,
    message: Seq<u8>,
    public_key: PublicKey,
    other_public_key: PublicKey,
)
    requires
        signature.0@ == other_signature.0@,
        public_key.0@ == other_public_key.0@,
    ensures
        verifies(signature, message, public_key) == verifies(
            other_signature,
            message,
            other_public_key,
        ),
{
}

} // verus!
