//! Text helpers shared by the decoders: comparing strings and byte slices, and
//! rendering numbers as text.

use vstd::prelude::*;
use vstd::utf8::*;
use vstd::string::*;

verus! {

/// Whether two byte slices hold the same bytes.
pub fn bytes_eq(a: &[u8], b: &[u8]) -> (same: bool)
    ensures
        same == (a@ == b@),
{
    if a.len() != b.len() {
        return false;
    }
    let mut i: usize = 0;
    while i < a.len()
        invariant
            i <= a.len(),
            a.len() == b.len(),
            forall|j: int| 0 <= j < i ==> a@[j] == b@[j],
        decreases a.len() - i,
    {
        if a[i] != b[i] {
            return false;
        }
        i += 1;
    }
    assert(a@ =~= b@);
    true
}

/// Whether two strings hold the same characters.
pub fn str_eq(a: &str, b: &str) -> (same: bool)
    ensures
        same == (a@ == b@),
{
    let same = bytes_eq(a.as_bytes(), b.as_bytes());
    proof {
        encode_utf8_decode_utf8(a@);
        encode_utf8_decode_utf8(b@);
    }
    same
}

/// The digit that stands for `d`: the sixteen digits in the order of their
/// value, the letters in lower case.
pub open spec fn digit_char(d: int) -> char
    recommends
        0 <= d < 16,
{
    "0123456789abcdef"@[d]
}

/// The one-character text of a digit.
fn digit_text(d: u8) -> (text: &'static str)
    requires
        d < 16,
    ensures
        text@ == seq![digit_char(d as int)],
{
    proof {
        reveal_strlit("0123456789abcdef");
    }
    let digits = "0123456789abcdef";
    let text = digits.substring_ascii(d as usize, d as usize + 1);
    assert(text@ =~= seq![digit_char(d as int)]);
    text
}

/// A natural number in decimal, without leading zeros.
pub open spec fn decimal_nat(n: nat) -> Seq<char>
    decreases n,
{
    if n < 10 {
        seq![digit_char(n as int)]
    } else {
        decimal_nat(n / 10).push(digit_char((n % 10) as int))
    }
}

/// An integer in decimal, with a minus sign before a negative one.
pub open spec fn decimal_text(n: int) -> Seq<char> {
    if n < 0 {
        seq!['-'] + decimal_nat((-n) as nat)
    } else {
        decimal_nat(n as nat)
    }
}

/// Appends a number in decimal to a text.
pub fn append_decimal(out: &mut String, n: u64)
    ensures
        final(out)@ == old(out)@ + decimal_nat(n as nat),
    decreases n,
{
    if n >= 10 {
        append_decimal(out, n / 10);
    }
    out.append(digit_text((n % 10) as u8));
    assert(out@ =~= old(out)@ + decimal_nat(n as nat));
}

/// Renders a signed 32-bit number as decimal text.
pub fn decimal_string(v: i32) -> (text: String)
    ensures
        text@ == decimal_text(v as int),
{
    let mut out = String::new();
    if v < 0 {
        proof {
            reveal_strlit("-");
        }
        out.append("-");
        assert(out@ =~= seq!['-']);
        let magnitude: u64 = (-(v as i64)) as u64;
        append_decimal(&mut out, magnitude);
    } else {
        append_decimal(&mut out, v as u64);
    }
    assert(out@ =~= decimal_text(v as int));
    out
}

/// Bytes in hexadecimal: two digits for each byte, the high one first, with
/// nothing between the bytes.
pub open spec fn hex_text(bytes: Seq<u8>) -> Seq<char> {
    Seq::new(
        2 * bytes.len(),
        |i: int|
            if i % 2 == 0 {
                digit_char(bytes[i / 2] as int / 16)
            } else {
                digit_char(bytes[i / 2] as int % 16)
            },
    )
}

/// Hexadecimal text has two characters for each byte, each of them a digit
/// or a lower-case letter from `a` to `f`.
pub proof fn lemma_hex_text_digits(bytes: Seq<u8>)
    ensures
        hex_text(bytes).len() == 2 * bytes.len(),
        forall|i: int|
            0 <= i < hex_text(bytes).len() ==> {
                let c = #[trigger] hex_text(bytes)[i];
                ('0' <= c && c <= '9') || ('a' <= c && c <= 'f')
            },
{
    reveal_strlit("0123456789abcdef");
    assert forall|i: int| 0 <= i < hex_text(bytes).len() implies {
        let c = #[trigger] hex_text(bytes)[i];
        ('0' <= c && c <= '9') || ('a' <= c && c <= 'f')
    } by {
        let b = bytes[i / 2] as int;
        let d = if i % 2 == 0 {
            b / 16
        } else {
            b % 16
        };
        assert(0 <= d < 16);
        assert(hex_text(bytes)[i] == "0123456789abcdef"@[d]);
    }
}

/// Renders bytes as lower-case hexadecimal text.
pub fn hex_string(bytes: &[u8]) -> (text: String)
    ensures
        text@ == hex_text(bytes@),
{
    let mut out = String::new();
    let mut i: usize = 0;
    while i < bytes.len()
        invariant
            i <= bytes.len(),
            out@ == hex_text(bytes@.subrange(0, i as int)),
        decreases bytes.len() - i,
    {
        let b = bytes[i];
        let ghost before = out@;
        out.append(digit_text(b / 16));
        out.append(digit_text(b % 16));
        assert(out@ =~= hex_text(bytes@.subrange(0, i + 1))) by {
            assert(out@ == before + seq![digit_char(b as int / 16)] + seq![
                digit_char(b as int % 16),
            ]);
        }
        i += 1;
    }
    assert(bytes@.subrange(0, i as int) =~= bytes@);
    out
}

/// The text that bytes hold in UTF-8; bytes that are no UTF-8 hold no text.
pub open spec fn utf8_text(bytes: Seq<u8>) -> Seq<char> {
    if valid_utf8(bytes) {
        decode_utf8(bytes)
    } else {
        Seq::empty()
    }
}

/// `core::str::Utf8Error`, the error of `core::str::from_utf8`: carried
/// through, never looked into.
#[verifier::external_type_specification]
#[verifier::external_body]
pub struct ExUtf8Error(core::str::Utf8Error);

/// `core::str::from_utf8`: the bytes as a string slice where they are
/// well-formed UTF-8, and an error where they are not.
pub assume_specification<'a>[ core::str::from_utf8 ](bytes: &'a [u8]) -> (text: Result<
    &'a str,
    core::str::Utf8Error,
>)
    ensures
        valid_utf8(bytes@) ==> text is Ok && text->Ok_0@ == decode_utf8(bytes@),
        !valid_utf8(bytes@) ==> text is Err,
;

/// Reads bytes as UTF-8 text, taking ill-formed bytes as the empty text.
pub fn utf8_string(bytes: &[u8]) -> (text: String)
    ensures
        text@ == utf8_text(bytes@),
{
    match core::str::from_utf8(bytes) {
        Ok(t) => String::from_str(t),
        Err(_) => String::new(),
    }
}

} // verus!
