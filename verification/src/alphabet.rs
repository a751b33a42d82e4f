//! The z-base32 alphabet: thirty-two lower-case letters and digits that are
//! hard to mistake for one another, in the order that gives each its five-bit
//! value.

use vstd::prelude::*;
use vstd::string::*;
use vstd::utf8::is_ascii_chars;

verus! {

/// The alphabet as text; the symbol for the value `v` is its character number `v`.
pub const ALPHABET: &'static str = "ybndrfg8ejkmcpqxot1uwisza345h769";

/// The alphabet as a sequence: `alphabet()[v]` is the symbol for the value `v`.
pub open spec fn alphabet() -> Seq<char> {
    seq![
        'y', 'b', 'n', 'd', 'r', 'f', 'g', '8',
        'e', 'j', 'k', 'm', 'c', 'p', 'q', 'x',
        'o', 't', '1', 'u', 'w', 'i', 's', 'z',
        'a', '3', '4', '5', 'h', '7', '6', '9',
    ]
}

/// `ALPHABET` holds exactly the symbols of `alphabet()`, in the same order.
pub proof fn lemma_alphabet_text()
    ensures
        ALPHABET@ == alphabet(),
{
    reveal_strlit("ybndrfg8ejkmcpqxot1uwisza345h769");
    assert(ALPHABET@ =~= alphabet());
}

/// Every symbol is a lower-case ASCII letter or an ASCII digit.
pub proof fn lemma_alphabet_printable()
    ensures
        forall|v: int|
            0 <= v < 32 ==> {
                ||| 'a' <= #[trigger] alphabet()[v] <= 'z'
                ||| '0' <= alphabet()[v] <= '9'
            },
        is_ascii_chars(alphabet()),
{
}

/// The symbol for the value `v`, as a one-character piece of `ALPHABET`.
pub fn symbol(v: u8) -> (c: &'static str)
    requires
        v < 32,
    ensures
        c@ == seq![alphabet()[v as int]],
{
    proof {
        lemma_alphabet_text();
        lemma_alphabet_printable();
    }
    let at: usize = v as usize;
    let c = ALPHABET.substring_ascii(at, at + 1);
    assert(c@ =~= seq![alphabet()[v as int]]);
    c
}

} // verus!
