//! Encoding of binary data in z-base32, the base-32 notation made for people:
//! its alphabet leaves out the characters that look alike.
//!
//! [`encode`] turns the leading bits of a buffer into text, five bits to a
//! symbol; [`encode_full_bytes`] does so for a whole buffer. What they return
//! is [`model::encoded`], a function of the input alone.

use vstd::prelude::*;
use vstd::string::*;

pub mod alphabet;
pub mod bits;
pub mod model;
pub mod theorems;

pub use crate::alphabet::ALPHABET;

use crate::alphabet::{alphabet, symbol};
use crate::bits::{group, lemma_group_at_bounds};
use crate::model::{encoded, encoded_len};

verus! {

/// Encodes the first `bits` bits of `buf`.
///
/// The buffer must hold that many bits. The text has one symbol for every
/// five bits, the last group filled up from the buffer, or with zeros where
/// the buffer ends.
pub fn encode(buf: &[u8], bits: usize) -> (s: String)
    requires
        bits <= 8 * buf@.len(),
    ensures
        s@ == encoded(buf@, bits as nat),
        s@.len() == (bits + 4) / 5,
        forall|k: int| 0 <= k < s@.len() ==> alphabet().contains(#[trigger] s@[k]),
        bits == 0 ==> s@ == Seq::<char>::empty(),
{
    let count: usize = if bits % 5 == 0 {
        bits / 5
    } else {
        bits / 5 + 1
    };
    let mut s = String::new();
    let mut k: usize = 0;
    while k < count
        invariant
            bits <= 8 * buf@.len(),
            count == encoded_len(bits as nat),
            k <= count,
            s@ == encoded(buf@, bits as nat).take(k as int),
        decreases count - k,
    {
        let v = group(buf, 5 * k);
        s.append(symbol(v));
        k += 1;
    }
    proof {
        assert forall|k: int| 0 <= k < s@.len() implies alphabet().contains(#[trigger] s@[k]) by {
            lemma_group_at_bounds(buf@, 5 * k);
        }
    }
    s
}

/// Encodes all of `buf`: the same as [`encode`] with eight bits for each byte.
///
/// The number of bits in the buffer must fit in a `usize`.
pub fn encode_full_bytes(buf: &[u8]) -> (s: String)
    requires
        8 * buf@.len() <= usize::MAX,
    ensures
        s@ == encoded(buf@, 8 * buf@.len()),
        s@.len() == (8 * buf@.len() + 4) / 5,
        forall|k: int| 0 <= k < s@.len() ==> alphabet().contains(#[trigger] s@[k]),
{
    encode(buf, buf.len() * 8)
}

} // verus!
