//! Text at the boundary: decoding caller bytes, detecting characters that a
//! NUL-terminated string cannot carry, and assembling the diagnostic messages.

use crate::error::text_view;
use vstd::prelude::*;
use vstd::utf8::*;

verus! {

/// The description that the standard library gives of the first defect in
/// bytes that are not UTF-8.
pub uninterp spec fn utf8_error_text(bytes: Seq<u8>) -> Seq<char>;

/// Decodes caller bytes as UTF-8.
///
/// Trusted: the body calls `std::str::from_utf8`. The contract claims that the
/// call succeeds exactly on well-formed UTF-8 and then yields the decoded
/// characters, and that on any other input it yields an error whose rendering
/// depends on the bytes alone.
#[verifier::external_body]
pub(crate) fn decode_text(bytes: &[u8]) -> (decoded: Result<String, String>)
    ensures
        valid_utf8(bytes@) ==> decoded is Ok && decoded->Ok_0@ == decode_utf8(bytes@),
        !valid_utf8(bytes@) ==> decoded is Err && decoded->Err_0@ == utf8_error_text(bytes@),
{
    match std::str::from_utf8(bytes) {
        Ok(text) => Ok(text.to_string()),
        Err(defect) => Err(defect.to_string()),
    }
}

/// The bytes of a caller's string, where there is one.
pub open spec fn bytes_view(bytes: Option<&[u8]>) -> Option<Seq<u8>> {
    match bytes {
        Some(b) => Some(b@),
        None => None,
    }
}

/// Whether the text holds the NUL character, which ends a C string early.
pub open spec fn holds_nul(text: Seq<char>) -> bool {
    text.contains('\0')
}

/// The encoding of one scalar holds a zero byte only for the scalar zero.
proof fn lemma_scalar_zero_byte(scalar: u32)
    requires
        is_scalar(scalar),
    ensures
        encode_scalar(scalar).contains(0u8) <==> scalar == 0,
{
    let bytes = encode_scalar(scalar);
    if has_width_1_encoding(scalar) {
        assert((scalar & 0x7F) as u8 == 0u8 <==> scalar == 0) by (bit_vector)
            requires
                0 <= scalar <= 0x7F,
        ;
        assert(bytes[0] == leading_byte_width_1(scalar));
        if scalar == 0 {
            assert(bytes[0] == 0u8);
        }
    } else {
        assert(0xC0u8 | ((scalar >> 6) & 0x1F) as u8 != 0u8) by (bit_vector);
        assert(0xE0u8 | ((scalar >> 12) & 0x0F) as u8 != 0u8) by (bit_vector);
        assert(0xF0u8 | ((scalar >> 18) & 0x7) as u8 != 0u8) by (bit_vector);
        assert(0x80u8 | (scalar & 0x3F) as u8 != 0u8) by (bit_vector);
        assert(0x80u8 | ((scalar >> 6) & 0x3F) as u8 != 0u8) by (bit_vector);
        assert(0x80u8 | ((scalar >> 12) & 0x3F) as u8 != 0u8) by (bit_vector);
        assert(forall|i: int| 0 <= i < bytes.len() ==> bytes[i] != 0u8);
    }
}

/// The UTF-8 encoding of a text holds a zero byte exactly when the text holds
/// the NUL character.
pub proof fn lemma_nul_byte_iff_nul_char(text: Seq<char>)
    ensures
        encode_utf8(text).contains(0u8) <==> holds_nul(text),
    decreases text.len(),
{
    if text.len() == 0 {
    } else {
        let head = encode_scalar(text[0] as u32);
        let rest = text.drop_first();
        let tail = encode_utf8(rest);
        lemma_nul_byte_iff_nul_char(rest);
        char_is_scalar(text[0]);
        lemma_scalar_zero_byte(text[0] as u32);
        assert(text[0] as u32 == 0 <==> text[0] == '\0') by {
            char_u32_cast(text[0], text[0] as u32);
            char_u32_cast('\0', 0u32);
        }
        if (head + tail).contains(0u8) {
            let i = choose|i: int| 0 <= i < (head + tail).len() && (head + tail)[i] == 0u8;
            if i < head.len() {
                assert(head[i] == 0u8);
                assert(text[0] == '\0');
            } else {
                assert(tail[i - head.len()] == 0u8);
                let j = choose|j: int| 0 <= j < rest.len() && rest[j] == '\0';
                assert(text[j + 1] == '\0');
            }
        }
        if holds_nul(text) {
            let j = choose|j: int| 0 <= j < text.len() && text[j] == '\0';
            if j == 0 {
                let i = choose|i: int| 0 <= i < head.len() && head[i] == 0u8;
                assert((head + tail)[i] == 0u8);
            } else {
                assert(rest[j - 1] == '\0');
                let i = choose|i: int| 0 <= i < tail.len() && tail[i] == 0u8;
                assert((head + tail)[head.len() + i] == 0u8);
            }
        }
    }
}

/// Text decoded from the content of a C string holds no NUL character: such
/// content has no zero byte.
pub proof fn lemma_c_string_text_portable(bytes: Seq<u8>)
    requires
        valid_utf8(bytes),
        !bytes.contains(0u8),
    ensures
        !holds_nul(decode_utf8(bytes)),
{
    decode_utf8_encode_utf8(bytes);
    lemma_nul_byte_iff_nul_char(decode_utf8(bytes));
}

/// Whether the text holds the NUL character.
pub fn has_nul(text: &str) -> (found: bool)
    ensures
        found == holds_nul(text@),
{
    let bytes = text.as_bytes();
    proof {
        lemma_nul_byte_iff_nul_char(text@);
    }
    let mut i: usize = 0;
    while i < bytes.len()
        invariant
            i <= bytes.len(),
            bytes@ == encode_utf8(text@),
            bytes@.contains(0u8) <==> holds_nul(text@),
            forall|j: int| 0 <= j < i ==> bytes@[j] != 0u8,
        decreases bytes.len() - i,
    {
        if bytes[i] == 0 {
            assert(bytes@[i as int] == 0u8);
            return true;
        }
        i += 1;
    }
    false
}

/// The copy of a text that can cross as a C string: the text itself, unless
/// it holds the NUL character.
pub open spec fn c_text(text: Seq<char>) -> Option<Seq<char>> {
    if holds_nul(text) {
        None
    } else {
        Some(text)
    }
}

/// A fresh copy of the text for handing out as a C string; none where the
/// text holds the NUL character.
pub fn c_string_copy(text: &str) -> (copy: Option<String>)
    ensures
        text_view(copy) == c_text(text@),
{
    if has_nul(text) {
        None
    } else {
        Some(String::from_str(text))
    }
}

/// The character of a decimal digit.
pub open spec fn digit_char(d: nat) -> char {
    if d == 0 {
        '0'
    } else if d == 1 {
        '1'
    } else if d == 2 {
        '2'
    } else if d == 3 {
        '3'
    } else if d == 4 {
        '4'
    } else if d == 5 {
        '5'
    } else if d == 6 {
        '6'
    } else if d == 7 {
        '7'
    } else if d == 8 {
        '8'
    } else {
        '9'
    }
}

/// The decimal numeral of a natural number, without leading zeros.
pub open spec fn decimal(n: nat) -> Seq<char>
    decreases n,
{
    if n < 10 {
        seq![digit_char(n)]
    } else {
        decimal(n / 10).push(digit_char(n % 10))
    }
}

/// The one-character text of a decimal digit.
fn digit_text(d: u8) -> (text: &'static str)
    requires
        d < 10,
    ensures
        text@ == seq![digit_char(d as nat)],
{
    proof {
        reveal_strlit("0");
        reveal_strlit("1");
        reveal_strlit("2");
        reveal_strlit("3");
        reveal_strlit("4");
        reveal_strlit("5");
        reveal_strlit("6");
        reveal_strlit("7");
        reveal_strlit("8");
        reveal_strlit("9");
    }
    let text = match d {
        0 => "0",
        1 => "1",
        2 => "2",
        3 => "3",
        4 => "4",
        5 => "5",
        6 => "6",
        7 => "7",
        8 => "8",
        _ => "9",
    };
    assert(text@ =~= seq![digit_char(d as nat)]);
    text
}

/// Appends the decimal numeral of `n` to `out`.
pub fn append_decimal(out: &mut String, n: u128)
    ensures
        final(out)@ == old(out)@ + decimal(n as nat),
    decreases n,
{
    if n >= 10 {
        append_decimal(out, n / 10);
        out.append(digit_text((n % 10) as u8));
        assert(final(out)@ =~= old(out)@ + decimal(n as nat));
    } else {
        out.append(digit_text(n as u8));
    }
}

/// `prefix` followed by `detail`.
pub fn labelled(prefix: &str, detail: &str) -> (text: String)
    ensures
        text@ == prefix@ + detail@,
{
    let mut text = String::from_str(prefix);
    text.append(detail);
    text
}

/// The message for a string of `count` characters where at most `max` fit.
pub open spec fn too_long_text(count: nat, max: nat) -> Seq<char> {
    "String too long: "@ + decimal(count) + " chars (max: "@ + decimal(max) + ")"@
}

/// The suggestion for a string that exceeds `max` characters: a string type
/// of twice that size.
pub open spec fn too_long_hint_text(max: nat) -> Seq<char> {
    "Use a larger string type (s"@ + decimal(2 * max) + " or larger)"@
}

/// Renders [`too_long_text`].
pub fn too_long_message(count: usize, max: usize) -> (text: String)
    ensures
        text@ == too_long_text(count as nat, max as nat),
{
    let mut text = String::from_str("String too long: ");
    append_decimal(&mut text, count as u128);
    text.append(" chars (max: ");
    append_decimal(&mut text, max as u128);
    text.append(")");
    text
}

/// Renders [`too_long_hint_text`].
pub fn too_long_hint(max: usize) -> (text: String)
    ensures
        text@ == too_long_hint_text(max as nat),
{
    let mut text = String::from_str("Use a larger string type (s");
    append_decimal(&mut text, (max as u128) * 2);
    text.append(" or larger)");
    text
}

/// A decimal numeral is never empty and holds digits only.
pub proof fn lemma_decimal_digits(n: nat)
    ensures
        decimal(n).len() >= 1,
        forall|i: int| 0 <= i < decimal(n).len() ==> '0' <= #[trigger] decimal(n)[i] <= '9',
    decreases n,
{
    if n >= 10 {
        lemma_decimal_digits(n / 10);
    }
}

} // verus!
