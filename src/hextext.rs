use vstd::prelude::*;

verus! {

/// A character among `0-9`, `a-f`, `A-F`.
pub open spec fn is_hex_char(c: char) -> bool {
    (48 <= c as u32 <= 57) || (97 <= c as u32 <= 102) || (65 <= c as u32 <= 70)
}

/// Value of a hexadecimal digit.
pub open spec fn hex_char_value(c: char) -> int {
    if 48 <= c as u32 <= 57 {
        c as u32 - 48
    } else if 97 <= c as u32 <= 102 {
        c as u32 - 87
    } else {
        c as u32 - 55
    }
}

/// Lowercase hexadecimal digit for a value below 16.
pub open spec fn lower_hex_digit(v: int) -> char {
    if v < 10 {
        ((v + 48) as u8) as char
    } else {
        ((v + 87) as u8) as char
    }
}

/// Lowercase hexadecimal text of a byte sequence, two digits per byte, high nibble first.
pub open spec fn hex_lower(b: Seq<u8>) -> Seq<char> {
    Seq::new(
        2 * b.len(),
        |i: int|
            if i % 2 == 0 {
                lower_hex_digit(b[i / 2] as int / 16)
            } else {
                lower_hex_digit(b[i / 2] as int % 16)
            },
    )
}

/// Text that decodes as hexadecimal: an even number of hex digits, either case.
pub open spec fn is_hex_text(s: Seq<char>) -> bool {
    &&& s.len() % 2 == 0
    &&& forall|i: int| 0 <= i < s.len() ==> is_hex_char(#[trigger] s[i])
}

/// The bytes that hexadecimal text stands for.
pub open spec fn hex_decoded(s: Seq<char>) -> Seq<u8> {
    Seq::new(
        s.len() / 2,
        |i: int| (hex_char_value(s[2 * i]) * 16 + hex_char_value(s[2 * i + 1])) as u8,
    )
}

/// A lowercase digit is `0-9` or `a-f`.
pub proof fn lemma_lower_digit_shape(v: int)
    requires
        0 <= v < 16,
    ensures
        48 <= lower_hex_digit(v) as u32 <= 57 || 97 <= lower_hex_digit(v) as u32 <= 102,
{
    if v < 10 {
        assert(((v + 48) as u8) as char as u32 == v + 48);
    } else {
        assert(((v + 87) as u8) as char as u32 == v + 87);
    }
}

proof fn lemma_digit_round_trip(v: int)
    requires
        0 <= v < 16,
    ensures
        is_hex_char(lower_hex_digit(v)),
        hex_char_value(lower_hex_digit(v)) == v,
{
    if v < 10 {
        assert(((v + 48) as u8) as char as u32 == v + 48);
    } else {
        assert(((v + 87) as u8) as char as u32 == v + 87);
    }
}

/// Lowercase hex text is hex text, and decodes back to the bytes it was made from.
pub proof fn lemma_hex_round_trip(b: Seq<u8>)
    ensures
        is_hex_text(hex_lower(b)),
        hex_decoded(hex_lower(b)) == b,
{
    let h = hex_lower(b);
    assert forall|i: int| 0 <= i < h.len() implies is_hex_char(#[trigger] h[i]) by {
        let x = b[i / 2] as int;
        lemma_digit_round_trip(x / 16);
        lemma_digit_round_trip(x % 16);
    }
    assert forall|i: int| 0 <= i < b.len() implies #[trigger] hex_decoded(h)[i] == b[i] by {
        let x = b[i] as int;
        assert((2 * i) / 2 == i);
        assert((2 * i + 1) / 2 == i);
        assert((2 * i) % 2 == 0);
        assert((2 * i + 1) % 2 == 1);
        lemma_digit_round_trip(x / 16);
        lemma_digit_round_trip(x % 16);
        assert(x / 16 * 16 + x % 16 == x);
    }
    assert(hex_decoded(h) =~= b);
}

} // verus!
