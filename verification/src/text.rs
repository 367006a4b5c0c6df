//! Comparison of executable names without regard to ASCII case.

use vstd::prelude::*;
use vstd::string::StringSliceAdditionalSpecFns;
use vstd::utf8::{encode_utf8, is_ascii_chars, is_ascii_chars_encode_utf8};

verus! {

/// `byte` with an ASCII upper-case letter replaced by its lower-case form.
pub open spec fn ascii_lower(byte: u8) -> u8 {
    if 0x41 <= byte <= 0x5a {
        (byte + 0x20) as u8
    } else {
        byte
    }
}

/// `bytes` with every ASCII upper-case letter in lower case.
pub open spec fn ascii_folded(bytes: Seq<u8>) -> Seq<u8> {
    Seq::new(bytes.len(), |i: int| ascii_lower(bytes[i]))
}

/// Two names denote the same executable when their UTF-8 encodings agree
/// once ASCII letters are put in one case.
pub open spec fn same_name(a: Seq<char>, b: Seq<char>) -> bool {
    ascii_folded(encode_utf8(a)) == ascii_folded(encode_utf8(b))
}

fn to_ascii_lower(byte: u8) -> (folded: u8)
    ensures
        folded == ascii_lower(byte),
{
    if 0x41 <= byte && byte <= 0x5a {
        byte + 0x20
    } else {
        byte
    }
}

/// Whether `a` and `b` are equal up to the case of their ASCII letters.
pub fn eq_ignore_ascii_case(a: &str, b: &str) -> (equal: bool)
    ensures
        equal == same_name(a@, b@),
{
    let left = a.as_bytes();
    let right = b.as_bytes();
    if left.len() != right.len() {
        assert(ascii_folded(left@).len() != ascii_folded(right@).len());
        return false;
    }
    let mut i: usize = 0;
    while i < left.len()
        invariant
            i <= left.len(),
            left.len() == right.len(),
            left@ == a.spec_bytes(),
            right@ == b.spec_bytes(),
            forall|j: int| 0 <= j < i ==> ascii_lower(left@[j]) == ascii_lower(right@[j]),
        decreases left.len() - i,
    {
        if to_ascii_lower(left[i]) != to_ascii_lower(right[i]) {
            assert(ascii_folded(left@)[i as int] != ascii_folded(right@)[i as int]);
            return false;
        }
        i += 1;
    }
    assert(ascii_folded(left@) =~= ascii_folded(right@));
    true
}

/// Matching names is an equivalence: every name matches itself, the order
/// of the two names does not matter, and names that match a common third
/// match each other.
pub proof fn lemma_same_name_is_equivalence(a: Seq<char>, b: Seq<char>, c: Seq<char>)
    ensures
        same_name(a, a),
        same_name(a, b) == same_name(b, a),
        same_name(a, b) && same_name(b, c) ==> same_name(a, c),
{
}

/// Names made of ASCII characters match exactly when they have the same
/// length and agree character by character, letters in either case.
pub proof fn lemma_same_name_of_ascii(a: Seq<char>, b: Seq<char>)
    requires
        is_ascii_chars(a),
        is_ascii_chars(b),
    ensures
        same_name(a, b) <==> a.len() == b.len() && forall|i: int|
            0 <= i < a.len() ==> ascii_lower(a[i] as u8) == ascii_lower(b[i] as u8),
{
    is_ascii_chars_encode_utf8(a);
    is_ascii_chars_encode_utf8(b);
    let left = ascii_folded(encode_utf8(a));
    let right = ascii_folded(encode_utf8(b));
    if same_name(a, b) {
        assert(left.len() == right.len());
        assert forall|i: int| 0 <= i < a.len() implies ascii_lower(a[i] as u8) == ascii_lower(
            b[i] as u8,
        ) by {
            assert(left[i] == right[i]);
        }
    }
    if a.len() == b.len() && forall|i: int|
        0 <= i < a.len() ==> ascii_lower(a[i] as u8) == ascii_lower(b[i] as u8) {
        assert(left =~= right);
    }
}

} // verus!
