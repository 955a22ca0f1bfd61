//! Per-account verification secrets.
//!
//! Each registration draws 32 bytes from the thread-local cryptographic
//! generator and keeps them as 64 lower-case hexadecimal characters. The
//! secret later keys the account's verification token.

use crate::hex::{hex_encode, hex_of, is_lower_hex, lemma_hex_of_shape};
use rand::RngCore;
use vstd::prelude::*;

verus! {

/// Number of random bytes behind one secret.
pub const SECRET_BYTES: usize = 32;

/// The text form of a secret drawn as `bytes`.
pub open spec fn secret_text(bytes: Seq<u8>) -> Seq<char> {
    hex_of(bytes)
}

/// Calls `rand::thread_rng().fill_bytes` on a 32-byte buffer.
///
/// Nothing is promised of the bytes: they are random.
#[verifier::external_body]
pub(crate) fn draw_secret_bytes() -> (bytes: [u8; 32]) {
    let mut bytes = [0u8; 32];
    rand::thread_rng().fill_bytes(&mut bytes);
    bytes
}

/// Encodes freshly drawn bytes as a secret.
pub fn secret_from_bytes(bytes: &[u8; 32]) -> (secret: String)
    ensures
        secret@ == secret_text(bytes@),
        secret@.len() == 2 * SECRET_BYTES,
        forall|i: int| 0 <= i < secret@.len() ==> is_lower_hex(#[trigger] secret@[i]),
{
    proof {
        lemma_hex_of_shape(bytes@);
    }
    hex_encode(bytes.as_slice())
}

/// Draws a new verification secret.
///
/// The bytes are random, so the contract says what holds of every draw: the
/// secret is the encoding of some 32 bytes.
pub fn generate_verification_secret() -> (secret: String)
    ensures
        exists|bytes: Seq<u8>| bytes.len() == SECRET_BYTES && secret@ == #[trigger] secret_text(bytes),
        secret@.len() == 2 * SECRET_BYTES,
        forall|i: int| 0 <= i < secret@.len() ==> is_lower_hex(#[trigger] secret@[i]),
{
    let bytes = draw_secret_bytes();
    let secret = secret_from_bytes(&bytes);
    assert(bytes@.len() == SECRET_BYTES && secret@ == secret_text(bytes@));
    secret
}

} // verus!
