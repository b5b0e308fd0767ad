//! The byte-content rule shared by corpus generation and churn writes:
//! a block is either filled with random bytes or with a single repeated,
//! maximally compressible byte, to stress both the engine's raw and its
//! compressed write paths.

use vstd::prelude::*;
use crate::rng::rng_byte;

verus! {

/// The repeated byte of a compressible block: `b'A'`.
pub const FILL_BYTE: u8 = 65;

/// Fill `buf` with exactly `len` bytes.  When `random` is false every
/// byte is the compressible fill byte; when it is true the bytes come
/// from the generator and nothing is promised about them.
pub fn fill_block(buf: &mut Vec<u8>, len: usize, random: bool, rng: &mut rand_chacha::ChaCha20Rng)
    ensures
        final(buf)@.len() == len,
        !random ==> forall|i: int| 0 <= i < len ==> final(buf)@[i] == FILL_BYTE,
{
    buf.clear();
    while buf.len() < len
        invariant
            buf@.len() <= len,
            !random ==> forall|i: int| 0 <= i < buf@.len() ==> buf@[i] == FILL_BYTE,
        decreases len - buf@.len(),
    {
        if random {
            let b = rng_byte(rng);
            buf.push(b);
        } else {
            buf.push(FILL_BYTE);
        }
    }
}

} // verus!
