//! What holds of the alphabet and of every encoding, proved from the model
//! alone.

use vstd::prelude::*;
use crate::alphabet::alphabet;
use crate::bits::{bit_at, lemma_group_at_bounds};
use crate::model::{encoded, encoded_len};

verus! {

/// The alphabet has thirty-two symbols, one for each five-bit value.
pub proof fn alphabet_has_thirty_two_symbols()
    ensures
        alphabet().len() == 32,
{
}

/// No symbol of the alphabet stands for two values.
pub proof fn alphabet_symbols_are_distinct()
    ensures
        forall|v: int, w: int|
            0 <= v < 32 && 0 <= w < 32 && v != w ==> alphabet()[v] != alphabet()[w],
{
}

/// The text of `bits` bits has `bits / 5` symbols, rounded up: five times its
/// length reaches `bits`, and one symbol fewer would not.
pub proof fn encoded_length_is_rounded_up(buf: Seq<u8>, bits: nat)
    ensures
        encoded(buf, bits).len() == encoded_len(bits),
        5 * encoded_len(bits) - 5 < bits <= 5 * encoded_len(bits),
{
}

/// Every symbol of the text is one of the alphabet.
pub proof fn encoded_stays_in_alphabet(buf: Seq<u8>, bits: nat)
    ensures
        forall|k: int|
            0 <= k < encoded(buf, bits).len() ==> alphabet().contains(
                #[trigger] encoded(buf, bits)[k],
            ),
{
    assert forall|k: int| 0 <= k < encoded(buf, bits).len() implies alphabet().contains(
        #[trigger] encoded(buf, bits)[k],
    ) by {
        lemma_group_at_bounds(buf, 5 * k);
    }
}

/// The same buffer and the same number of bits give the same text.
pub proof fn encoded_is_deterministic(buf_a: Seq<u8>, bits_a: nat, buf_b: Seq<u8>, bits_b: nat)
    requires
        buf_a == buf_b,
        bits_a == bits_b,
    ensures
        encoded(buf_a, bits_a) == encoded(buf_b, bits_b),
{
}

/// The text depends on the bits that its symbols cover and on nothing else:
/// two buffers that agree on those bits give the same text.
pub proof fn encoded_reads_covered_bits_only(buf_a: Seq<u8>, buf_b: Seq<u8>, bits: nat)
    requires
        forall|k: int| 0 <= k < 5 * encoded_len(bits) ==> bit_at(buf_a, k) == bit_at(buf_b, k),
    ensures
        encoded(buf_a, bits) == encoded(buf_b, bits),
{
    assert(encoded(buf_a, bits) =~= encoded(buf_b, bits));
}

/// Encoding fewer bits of the same buffer gives the beginning of the longer
/// text.
pub proof fn encoded_shorter_is_prefix(buf: Seq<u8>, bits_short: nat, bits_long: nat)
    requires
        bits_short <= bits_long,
    ensures
        encoded(buf, bits_short).is_prefix_of(encoded(buf, bits_long)),
{
}

/// No bits, no text, whatever the buffer holds.
pub proof fn encoded_of_no_bits_is_empty(buf: Seq<u8>)
    ensures
        encoded(buf, 0) == Seq::<char>::empty(),
{
}

} // verus!
