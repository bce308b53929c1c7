//! Twelve-byte document identifiers, written as 24 hexadecimal digits.

use vstd::prelude::*;
use crate::text::digit_char;

verus! {

/// A database document identifier.
#[derive(Clone, Copy, Debug)]
pub struct ObjectId {
    pub bytes: [u8; 12],
}

/// Whether `c` is a hexadecimal digit of either case.
pub open spec fn is_hex_digit(c: char) -> bool {
    ||| (c as u32) >= 0x30 && (c as u32) <= 0x39
    ||| (c as u32) >= 0x61 && (c as u32) <= 0x66
    ||| (c as u32) >= 0x41 && (c as u32) <= 0x46
}

/// The value of a hexadecimal digit.
pub open spec fn hex_value(c: char) -> nat {
    if (c as u32) <= 0x39 {
        ((c as u32) - 0x30) as nat
    } else if (c as u32) >= 0x61 {
        ((c as u32) - 0x61 + 10) as nat
    } else {
        ((c as u32) - 0x41 + 10) as nat
    }
}

/// Whether `s` is the text of an identifier: exactly 24 hexadecimal digits.
pub open spec fn is_object_id_text(s: Seq<char>) -> bool {
    &&& s.len() == 24
    &&& forall|i: int| 0 <= i < 24 ==> #[trigger] is_hex_digit(s[i])
}

/// The twelve bytes that the identifier text `s` spells, two digits per byte.
pub open spec fn object_id_bytes(s: Seq<char>) -> Seq<u8> {
    Seq::new(12, |i: int| (hex_value(s[2 * i]) * 16 + hex_value(s[2 * i + 1])) as u8)
}

/// A lower-case hexadecimal digit.
pub open spec fn lower_hex_digit(d: nat) -> char {
    if d < 10 {
        digit_char(d)
    } else {
        (('a' as u32) + d - 10) as char
    }
}

/// Lower-case hexadecimal text of a byte sequence, two digits per byte.
pub open spec fn lower_hex(b: Seq<u8>) -> Seq<char> {
    Seq::new(
        2 * b.len(),
        |i: int|
            if i % 2 == 0 {
                lower_hex_digit((b[i / 2] / 16) as nat)
            } else {
                lower_hex_digit((b[i / 2] % 16) as nat)
            },
    )
}

proof fn lemma_hex_digit_round_trip(d: nat)
    requires
        d < 16,
    ensures
        is_hex_digit(lower_hex_digit(d)),
        hex_value(lower_hex_digit(d)) == d,
{
    if d < 10 {
        assert(lower_hex_digit(d) as u32 == 0x30 + d);
    } else {
        assert(lower_hex_digit(d) as u32 == 0x61 + d - 10);
    }
}

/// An identifier's text reads back as the same identifier: the lower-case
/// hexadecimal text of any twelve bytes is identifier text, and it spells
/// those bytes.
pub proof fn law_object_id_text_round_trip(b: Seq<u8>)
    requires
        b.len() == 12,
    ensures
        is_object_id_text(lower_hex(b)),
        object_id_bytes(lower_hex(b)) == b,
{
    let s = lower_hex(b);
    assert forall|i: int| 0 <= i < 24 implies #[trigger] is_hex_digit(s[i]) by {
        if i % 2 == 0 {
            lemma_hex_digit_round_trip((b[i / 2] / 16) as nat);
        } else {
            lemma_hex_digit_round_trip((b[i / 2] % 16) as nat);
        }
    }
    assert forall|i: int| 0 <= i < 12 implies #[trigger] object_id_bytes(s)[i] == b[i] by {
        lemma_hex_digit_round_trip((b[i] / 16) as nat);
        lemma_hex_digit_round_trip((b[i] % 16) as nat);
        assert((2 * i) % 2 == 0 && (2 * i) / 2 == i);
        assert((2 * i + 1) % 2 == 1 && (2 * i + 1) / 2 == i);
    }
    assert(object_id_bytes(s) =~= b);
}

impl ObjectId {
    /// Reads an identifier from its text.
    ///
    /// Trusted: calls `bson::oid::ObjectId::parse_str`, which hex-decodes the
    /// text (digits of either case) and accepts it exactly when it decodes to
    /// twelve bytes; the contract states that and the decoded bytes.
    #[verifier::external_body]
    pub(crate) fn parse_str(s: &str) -> (r: Option<ObjectId>)
        ensures
            r is Some <==> is_object_id_text(s@),
            r matches Some(id) ==> id.bytes@ == object_id_bytes(s@),
    {
        match bson::oid::ObjectId::parse_str(s) {
            Ok(id) => Some(ObjectId { bytes: id.bytes() }),
            Err(_) => None,
        }
    }

    /// The identifier as 24 lower-case hexadecimal digits.
    ///
    /// Trusted: calls `bson::oid::ObjectId::to_hex`, which is `hex::encode`
    /// of the twelve bytes (lower case, high nibble first).
    #[verifier::external_body]
    pub(crate) fn to_hex(&self) -> (r: String)
        ensures
            r@ == lower_hex(self.bytes@),
    {
        bson::oid::ObjectId::from_bytes(self.bytes).to_hex()
    }

    /// A fresh identifier.
    ///
    /// Trusted: calls `bson::oid::ObjectId::new`, which combines the clock, a
    /// per-process random value and a counter; nothing is stated of the bytes.
    #[verifier::external_body]
    pub(crate) fn generate() -> (r: ObjectId) {
        ObjectId { bytes: bson::oid::ObjectId::new().bytes() }
    }
}

/// Whether `s` is the text of an identifier.
pub fn is_valid_object_id(s: &str) -> (r: bool)
    ensures
        r == is_object_id_text(s@),
{
    ObjectId::parse_str(s).is_some()
}

/// Reads an identifier from its text, `None` where the text is not 24
/// hexadecimal digits.
pub fn object_id_from_text(s: &str) -> (r: Option<ObjectId>)
    ensures
        r is Some <==> is_object_id_text(s@),
        r matches Some(id) ==> id.bytes@ == object_id_bytes(s@),
{
    ObjectId::parse_str(s)
}

/// The identifier's text: 24 lower-case hexadecimal digits.
pub fn object_id_text(id: &ObjectId) -> (r: String)
    ensures
        r@ == lower_hex(id.bytes@),
{
    id.to_hex()
}

} // verus!
