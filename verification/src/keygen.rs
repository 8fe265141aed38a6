//! Random key material for the keyed hash.
//!
//! The keyed hash takes its 32 key bytes from a password generator run with
//! every character class switched on: uppercase, lowercase, digits and
//! symbols, with the easily confused characters (I, O, l, 0) left out of
//! their classes. The password is drawn with one byte from each class first,
//! filled up from the combined alphabet, and shuffled, so the class bytes
//! do not sit at fixed positions.

use vstd::prelude::*;

use crate::primitives::{random_index, shuffle_bytes};
use vstd::seq_lib::group_to_multiset_ensures;

verus! {

/// An uppercase letter of the key alphabet (no I, no O).
pub open spec fn is_upper_key_byte(b: u8) -> bool {
    65 <= b <= 90 && b != 73 && b != 79
}

/// A lowercase letter of the key alphabet (no l).
pub open spec fn is_lower_key_byte(b: u8) -> bool {
    97 <= b <= 122 && b != 108
}

/// A digit of the key alphabet (no 0).
pub open spec fn is_digit_key_byte(b: u8) -> bool {
    49 <= b <= 57
}

/// A symbol of the key alphabet: one of `! @ # $ % ^ & * _`.
pub open spec fn is_symbol_key_byte(b: u8) -> bool {
    b == 33 || b == 64 || b == 35 || b == 36 || b == 37 || b == 94 || b == 38 || b == 42 || b == 95
}

/// A byte the password generator may emit.
pub open spec fn is_password_byte(b: u8) -> bool {
    is_upper_key_byte(b) || is_lower_key_byte(b) || is_digit_key_byte(b) || is_symbol_key_byte(b)
}

/// What holds of a generated keyed-hash key: 32 bytes, all from the key
/// alphabet, with every character class represented.
pub open spec fn password_key_ok(s: Seq<u8>) -> bool {
    &&& s.len() == 32
    &&& forall|i: int| 0 <= i < s.len() ==> is_password_byte(#[trigger] s[i])
    &&& exists|i: int| 0 <= i < s.len() && is_upper_key_byte(#[trigger] s[i])
    &&& exists|i: int| 0 <= i < s.len() && is_lower_key_byte(#[trigger] s[i])
    &&& exists|i: int| 0 <= i < s.len() && is_digit_key_byte(#[trigger] s[i])
    &&& exists|i: int| 0 <= i < s.len() && is_symbol_key_byte(#[trigger] s[i])
}

fn upper_chars() -> (r: Vec<u8>)
    ensures
        r@.len() > 0,
        forall|i: int| 0 <= i < r@.len() ==> is_upper_key_byte(#[trigger] r@[i]),
{
    let mut v: Vec<u8> = Vec::new();
    v.push(65);
    let mut c: u8 = 66;
    while c <= 90
        invariant
            66 <= c <= 91,
            v@.len() > 0,
            forall|i: int| 0 <= i < v@.len() ==> is_upper_key_byte(#[trigger] v@[i]),
        decreases 91 - c,
    {
        if c != 73 && c != 79 {
            v.push(c);
        }
        c = c + 1;
    }
    v
}

fn lower_chars() -> (r: Vec<u8>)
    ensures
        r@.len() > 0,
        forall|i: int| 0 <= i < r@.len() ==> is_lower_key_byte(#[trigger] r@[i]),
{
    let mut v: Vec<u8> = Vec::new();
    v.push(97);
    let mut c: u8 = 98;
    while c <= 122
        invariant
            98 <= c <= 123,
            v@.len() > 0,
            forall|i: int| 0 <= i < v@.len() ==> is_lower_key_byte(#[trigger] v@[i]),
        decreases 123 - c,
    {
        if c != 108 {
            v.push(c);
        }
        c = c + 1;
    }
    v
}

fn digit_chars() -> (r: Vec<u8>)
    ensures
        r@.len() > 0,
        forall|i: int| 0 <= i < r@.len() ==> is_digit_key_byte(#[trigger] r@[i]),
{
    let mut v: Vec<u8> = Vec::new();
    let mut c: u8 = 49;
    while c <= 57
        invariant
            49 <= c <= 58,
            v@.len() == c - 49,
            forall|i: int| 0 <= i < v@.len() ==> is_digit_key_byte(#[trigger] v@[i]),
        decreases 58 - c,
    {
        v.push(c);
        c = c + 1;
    }
    v
}

fn symbol_chars() -> (r: Vec<u8>)
    ensures
        r@.len() > 0,
        forall|i: int| 0 <= i < r@.len() ==> is_symbol_key_byte(#[trigger] r@[i]),
{
    let mut v: Vec<u8> = Vec::new();
    v.push(33);
    v.push(64);
    v.push(35);
    v.push(36);
    v.push(37);
    v.push(94);
    v.push(38);
    v.push(42);
    v.push(95);
    v
}

/// Draws one random byte from a non-empty alphabet.
fn pick_from(alphabet: &Vec<u8>) -> (r: u8)
    requires
        alphabet@.len() > 0,
    ensures
        alphabet@.contains(r),
{
    let i = random_index(alphabet.len());
    alphabet[i]
}

/// Draws a fresh 32-byte keyed-hash key: one byte from each character
/// class, the rest from the combined alphabet, shuffled at the end.
pub fn generate_password_key() -> (r: Vec<u8>)
    ensures
        password_key_ok(r@),
{
    let upper = upper_chars();
    let lower = lower_chars();
    let digits = digit_chars();
    let symbols = symbol_chars();

    let mut pw: Vec<u8> = Vec::new();
    pw.push(pick_from(&upper));
    pw.push(pick_from(&lower));
    pw.push(pick_from(&digits));
    pw.push(pick_from(&symbols));

    let mut all: Vec<u8> = Vec::new();
    all.extend_from_slice(upper.as_slice());
    all.extend_from_slice(lower.as_slice());
    all.extend_from_slice(digits.as_slice());
    all.extend_from_slice(symbols.as_slice());
    assert(forall|i: int| 0 <= i < all@.len() ==> is_password_byte(#[trigger] all@[i]));

    while pw.len() < 32
        invariant
            4 <= pw@.len() <= 32,
            all@.len() > 0,
            forall|i: int| 0 <= i < all@.len() ==> is_password_byte(#[trigger] all@[i]),
            is_upper_key_byte(pw@[0]),
            is_lower_key_byte(pw@[1]),
            is_digit_key_byte(pw@[2]),
            is_symbol_key_byte(pw@[3]),
            forall|i: int| 0 <= i < pw@.len() ==> is_password_byte(#[trigger] pw@[i]),
        decreases 32 - pw.len(),
    {
        pw.push(pick_from(&all));
    }

    let ghost before = pw@;
    shuffle_bytes(&mut pw);
    proof {
        broadcast use group_to_multiset_ensures;

        assert forall|b: u8| before.contains(b) implies pw@.contains(b) by {
            assert(before.to_multiset().count(b) > 0);
            assert(pw@.to_multiset().count(b) > 0);
        }
        assert forall|i: int| 0 <= i < pw@.len() implies is_password_byte(#[trigger] pw@[i]) by {
            assert(pw@.to_multiset().count(pw@[i]) > 0);
            assert(before.to_multiset().count(pw@[i]) > 0);
            assert(before.contains(pw@[i]));
        }
        assert(before.contains(before[0]));
        assert(before.contains(before[1]));
        assert(before.contains(before[2]));
        assert(before.contains(before[3]));
    }
    pw
}

} // verus!
