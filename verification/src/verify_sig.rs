//! Signature checking for the self-check path.
//!
//! A self-check voucher binds (board, task, submitter, check data) and must
//! carry a valid Ed25519 signature by the task creator over that message.

use vstd::prelude::*;
use crate::pubkey::Pubkey;

verus! {

/// Whether `signature` is a valid Ed25519 signature over `message` by the
/// key `key`. This depends on the three byte strings alone.
pub uninterp spec fn ed25519_valid(key: Seq<u8>, message: Seq<u8>, signature: Seq<u8>) -> bool;

/// Relies on ed25519_dalek: `VerifyingKey::from_bytes` to decode the key,
/// `Signature::from_slice` to decode the 64-byte signature, and
/// `VerifyingKey::verify_strict` for the check itself; all three depend only
/// on their byte-string arguments, and a key or signature that does not
/// decode validates nothing.
#[verifier::external_body]
pub fn ed25519_verify(key: &Pubkey, message: &Vec<u8>, signature: &Vec<u8>) -> (r: bool)
    ensures
        r == ed25519_valid(key@, message@, signature@),
{
    let Ok(vk) = ed25519_dalek::VerifyingKey::from_bytes(&key.bytes) else {
        return false;
    };
    let Ok(sig) = ed25519_dalek::Signature::from_slice(signature.as_slice()) else {
        return false;
    };
    vk.verify_strict(message.as_slice(), &sig).is_ok()
}

} // verus!
