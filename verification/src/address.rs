//! Wallet addresses, compared without regard to the case of ASCII letters.

use std::hash::{Hash, Hasher};

use vstd::prelude::*;

use vstd::utf8::{encode_scalar, encode_utf8};

use crate::text::{ascii_lower, eq_ignore_ascii_case, eq_ignore_case, lower_char};

verus! {

/// A user address. Two addresses are equal when they differ at most in the case of
/// ASCII letters, and equal addresses hash alike.
#[derive(Debug)]
pub struct Address(pub String);

impl Address {
    /// The address with the given text.
    pub fn new(address: String) -> (r: Self)
        ensures
            r.0 == address,
    {
        Address(address)
    }

    /// Whether the two addresses are the same, ignoring the case of ASCII letters.
    pub fn same_as(&self, other: &Self) -> (r: bool)
        ensures
            r == eq_ignore_case(self.0@, other.0@),
    {
        eq_ignore_ascii_case(self.0.as_str(), other.0.as_str())
    }
}

impl PartialEq for Address {
    fn eq(&self, other: &Self) -> (r: bool) {
        self.same_as(other)
    }
}

impl vstd::std_specs::cmp::PartialEqSpecImpl for Address {
    open spec fn obeys_eq_spec() -> bool {
        true
    }

    open spec fn eq_spec(&self, other: &Address) -> bool {
        eq_ignore_case(self.0@, other.0@)
    }
}

impl Eq for Address {}

/// The ASCII lowercase of one byte; every other byte is kept.
pub open spec fn lower_byte(b: u8) -> u8 {
    if 65 <= b && b <= 90 {
        (b + 32) as u8
    } else {
        b
    }
}

/// The bytes an address text is hashed by: each byte of its UTF-8 encoding, ASCII
/// lowercased.
pub open spec fn hash_input(text: Seq<char>) -> Seq<u8> {
    encode_utf8(text).map_values(|b: u8| lower_byte(b))
}

fn to_lower_byte(b: u8) -> (r: u8)
    ensures
        r == lower_byte(b),
{
    if 65 <= b && b <= 90 {
        b + 32
    } else {
        b
    }
}

/// Trusted: `Hash::hash` of a `u8`, which std documents as feeding the byte to the
/// hasher.
#[verifier::external_body]
fn feed_byte<H: Hasher>(b: u8, state: &mut H) {
    b.hash(state)
}

impl Hash for Address {
    /// Feeds the hasher each byte of the text, ASCII lowercased (see [`hash_input`]),
    /// so that equal addresses hash alike.
    fn hash<H: Hasher>(&self, state: &mut H) {
        let bytes = self.0.as_str().as_bytes();
        let mut i: usize = 0;
        while i < bytes.len()
            invariant
                i <= bytes@.len(),
            decreases bytes.len() - i,
        {
            feed_byte(to_lower_byte(bytes[i]), state);
            i = i + 1;
        }
    }
}

proof fn lemma_width_1_byte(v: u32)
    by (bit_vector)
    requires
        v <= 0x7F,
    ensures
        (v & 0x7F) == v,
{
}

proof fn lemma_multibyte_bytes_high(v: u32)
    by (bit_vector)
    ensures
        0x80u8 <= (0xC0u8 | ((v >> 6u32) & 0x1Fu32) as u8),
        0x80u8 <= (0xE0u8 | ((v >> 12u32) & 0x0Fu32) as u8),
        0x80u8 <= (0xF0u8 | ((v >> 18u32) & 0x7u32) as u8),
        0x80u8 <= (0x80u8 | (v & 0x3Fu32) as u8),
        0x80u8 <= (0x80u8 | ((v >> 6u32) & 0x3Fu32) as u8),
        0x80u8 <= (0x80u8 | ((v >> 12u32) & 0x3Fu32) as u8),
{
}

/// Lowercasing the bytes of one character's encoding gives the encoding of its ASCII
/// lowercase: only one-byte (ASCII) encodings hold letters.
proof fn lemma_lower_scalar(c: char)
    ensures
        encode_scalar(lower_char(c) as u32) == encode_scalar(c as u32).map_values(
            |b: u8| lower_byte(b),
        ),
{
    let v = c as u32;
    lemma_multibyte_bytes_high(v);
    if v <= 0x7F {
        lemma_width_1_byte(v);
        lemma_width_1_byte(lower_char(c) as u32);
        assert(encode_scalar(lower_char(c) as u32) =~= encode_scalar(c as u32).map_values(
            |b: u8| lower_byte(b),
        ));
    } else {
        assert(lower_char(c) == c);
        assert(encode_scalar(c as u32).map_values(|b: u8| lower_byte(b)) =~= encode_scalar(
            c as u32,
        ));
    }
}

/// The bytes an address is hashed by are the UTF-8 encoding of its ASCII lowercase.
pub proof fn lemma_hash_input_is_lowercase_encoding(text: Seq<char>)
    ensures
        hash_input(text) == encode_utf8(ascii_lower(text)),
    decreases text.len(),
{
    if text.len() == 0 {
        assert(hash_input(text) =~= Seq::<u8>::empty());
        assert(ascii_lower(text) =~= Seq::<char>::empty());
    } else {
        lemma_hash_input_is_lowercase_encoding(text.drop_first());
        lemma_lower_scalar(text[0]);
        assert(ascii_lower(text).drop_first() =~= ascii_lower(text.drop_first()));
        assert(ascii_lower(text)[0] == lower_char(text[0]));
        assert(hash_input(text) =~= encode_scalar(text[0] as u32).map_values(|b: u8| lower_byte(b))
            + hash_input(text.drop_first()));
    }
}

/// Equal addresses hash alike: the hasher is fed the same bytes for both.
pub proof fn lemma_equal_addresses_hash_alike(a: Address, b: Address)
    requires
        eq_ignore_case(a.0@, b.0@),
    ensures
        hash_input(a.0@) == hash_input(b.0@),
{
    lemma_hash_input_is_lowercase_encoding(a.0@);
    lemma_hash_input_is_lowercase_encoding(b.0@);
}

} // verus!
