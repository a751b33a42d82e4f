//! What the encoder returns, stated over sequences: one symbol for every five
//! bits of input, in order.

use vstd::prelude::*;
use crate::alphabet::alphabet;
use crate::bits::group_at;

verus! {

/// The number of symbols that `bits` bits take: `bits / 5`, rounded up.
pub open spec fn encoded_len(bits: nat) -> nat {
    (bits + 4) / 5
}

/// The z-base32 text of the first `bits` bits of `buf`.
///
/// Symbol `k` stands for the five bits that start at bit `5 * k`. Where the
/// last group runs past `bits` it takes the bits that the buffer holds there,
/// and zeros past the end of the buffer.
pub open spec fn encoded(buf: Seq<u8>, bits: nat) -> Seq<char> {
    Seq::new(encoded_len(bits), |k: int| alphabet()[group_at(buf, 5 * k)])
}

} // verus!
