//! The input seen as a string of bits, and the five-bit groups cut from it.
//!
//! Bits are numbered from the most significant bit of the first byte. A group
//! may start anywhere in a byte, so it either lies inside one byte or runs over
//! into the next one; past the last byte every bit reads as zero.

use vstd::prelude::*;

verus! {

/// Bit `r` of one byte, counted from its most significant bit (`r` in `0..8`).
pub open spec fn byte_bit(b: u8, r: u8) -> u8 {
    (b >> ((7 - r) as u8)) & 1
}

/// Bit `k` of the buffer: `0` or `1` inside the buffer, `0` outside it.
pub open spec fn bit_at(buf: Seq<u8>, k: int) -> int {
    if 0 <= k < 8 * buf.len() {
        byte_bit(buf[k / 8], (k % 8) as u8) as int
    } else {
        0
    }
}

/// The number spelled by the five bits that start at bit `p`, first bit highest.
pub open spec fn group_at(buf: Seq<u8>, p: int) -> int {
    16 * bit_at(buf, p)
        + 8 * bit_at(buf, p + 1)
        + 4 * bit_at(buf, p + 2)
        + 2 * bit_at(buf, p + 3)
        + bit_at(buf, p + 4)
}

/// Bit `r` of the sixteen bits made of `b` followed by `c` (`r` in `0..16`).
pub open spec fn pair_bit(b: u8, c: u8, r: u8) -> u8 {
    if r < 8 {
        byte_bit(b, r)
    } else {
        byte_bit(c, (r - 8) as u8)
    }
}

/// A single bit is zero or one, and a zero byte has no bit set.
pub proof fn lemma_byte_bit_bounds(b: u8, r: u8)
    by (bit_vector)
    requires
        r < 8,
    ensures
        byte_bit(b, r) <= 1,
        byte_bit(0, r) == 0,
{
}

/// Shifting and masking picks the group that starts at bit `j <= 3` of a byte.
proof fn lemma_group_inside_byte(b: u8, j: u8)
    by (bit_vector)
    requires
        j <= 3,
    ensures
        ((b >> ((3 - j) as u8)) & 31) < 32,
        ((b >> ((3 - j) as u8)) & 31) == 16 * byte_bit(b, j)
            + 8 * byte_bit(b, (j + 1) as u8)
            + 4 * byte_bit(b, (j + 2) as u8)
            + 2 * byte_bit(b, (j + 3) as u8)
            + byte_bit(b, (j + 4) as u8),
{
}

/// The low bits of `b` joined with the high bits of `c` make the group that
/// starts at bit `j > 3` of `b`. Shifting a zero byte leaves zero.
proof fn lemma_group_across_bytes(b: u8, c: u8, j: u8)
    by (bit_vector)
    requires
        4 <= j <= 7,
    ensures
        (((b << ((j - 3) as u8)) & 31) | (c >> ((11 - j) as u8))) < 32,
        (((b << ((j - 3) as u8)) & 31) | (c >> ((11 - j) as u8))) == 16 * pair_bit(b, c, j)
            + 8 * pair_bit(b, c, (j + 1) as u8)
            + 4 * pair_bit(b, c, (j + 2) as u8)
            + 2 * pair_bit(b, c, (j + 3) as u8)
            + pair_bit(b, c, (j + 4) as u8),
        (0u8 >> ((11 - j) as u8)) == 0,
{
}

/// Inside a byte and its successor, the buffer's bits are those of the pair;
/// a missing successor counts as a zero byte.
proof fn lemma_bit_at_pair(buf: Seq<u8>, i: int, r: int)
    requires
        0 <= i < buf.len(),
        0 <= r < 16,
    ensures
        bit_at(buf, 8 * i + r) == pair_bit(
            buf[i],
            if i + 1 < buf.len() {
                buf[i + 1]
            } else {
                0u8
            },
            r as u8,
        ),
{
    if r >= 8 && i + 1 >= buf.len() {
        lemma_byte_bit_bounds(0, (r - 8) as u8);
    }
}

/// Every group is a number below thirty-two.
pub proof fn lemma_group_at_bounds(buf: Seq<u8>, p: int)
    ensures
        0 <= group_at(buf, p) < 32,
{
    assert forall|k: int| 0 <= #[trigger] bit_at(buf, k) <= 1 by {
        if 0 <= k < 8 * buf.len() {
            lemma_byte_bit_bounds(buf[k / 8], (k % 8) as u8);
        }
    }
}

/// Reads the five-bit group that starts at bit `p` of `buf`.
pub fn group(buf: &[u8], p: usize) -> (v: u8)
    requires
        p < 8 * buf@.len(),
    ensures
        v == group_at(buf@, p as int),
        v < 32,
{
    let i: usize = p / 8;
    let j: usize = p % 8;
    let b: u8 = buf[i];
    proof {
        lemma_bit_at_pair(buf@, i as int, j as int);
        lemma_bit_at_pair(buf@, i as int, j + 1);
        lemma_bit_at_pair(buf@, i as int, j + 2);
        lemma_bit_at_pair(buf@, i as int, j + 3);
        lemma_bit_at_pair(buf@, i as int, j + 4);
    }
    if j <= 3 {
        proof {
            lemma_group_inside_byte(b, j as u8);
        }
        (b >> (3 - j)) & 0b11111
    } else {
        let overflow: usize = j - 3;
        let high: u8 = (b << overflow) & 0b11111;
        let low: u8 = if i >= buf.len() - 1 {
            0
        } else {
            buf[i + 1] >> (8 - overflow)
        };
        proof {
            let c = if i + 1 < buf@.len() {
                buf@[i + 1]
            } else {
                0u8
            };
            lemma_group_across_bytes(b, c, j as u8);
        }
        high | low
    }
}

} // verus!
