//! Percent-encoding of UTF-8 bytes into URL text.

use vstd::prelude::*;
use crate::text::push_char;

verus! {

/// Which bytes stand for themselves in the encoded text.
#[derive(Clone, Copy, Debug, PartialEq, Eq, Structural)]
pub enum EncodeForm {
    /// A search query: RFC 3986 unreserved bytes stay, space becomes `+`.
    QueryComponent,
    /// The body of a `data:` URL: unreserved bytes and most sub-delimiters stay.
    DataUrl,
}

/// Upper-case hexadecimal digit for a value below 16.
pub open spec fn hex_upper(v: u8) -> char {
    if v < 10 {
        (48 + v) as char
    } else {
        (55 + v) as char
    }
}

/// `%XX` with the byte's two upper-case hex digits.
pub open spec fn percent_escape(b: u8) -> Seq<char> {
    seq!['%', hex_upper(b / 16), hex_upper(b % 16)]
}

/// RFC 3986 unreserved bytes: ASCII letters, digits, `-`, `_`, `.`, `~`.
pub open spec fn is_unreserved(b: u8) -> bool {
    ||| (65 <= b && b <= 90)
    ||| (97 <= b && b <= 122)
    ||| (48 <= b && b <= 57)
    ||| b == 45
    ||| b == 95
    ||| b == 46
    ||| b == 126
}

/// Bytes kept verbatim in a `data:` URL body: unreserved bytes and
/// `! * ' ( ) ; / : @ & = + $ , ?`.
pub open spec fn is_data_url_safe(b: u8) -> bool {
    ||| is_unreserved(b)
    ||| b == 33
    ||| b == 42
    ||| b == 39
    ||| b == 40
    ||| b == 41
    ||| b == 59
    ||| b == 47
    ||| b == 58
    ||| b == 64
    ||| b == 38
    ||| b == 61
    ||| b == 43
    ||| b == 36
    ||| b == 44
    ||| b == 63
}

/// The encoded text of one byte.
pub open spec fn encode_byte(b: u8, form: EncodeForm) -> Seq<char> {
    match form {
        EncodeForm::QueryComponent => {
            if is_unreserved(b) {
                seq![b as char]
            } else if b == 32 {
                seq!['+']
            } else {
                percent_escape(b)
            }
        },
        EncodeForm::DataUrl => {
            if is_data_url_safe(b) {
                seq![b as char]
            } else {
                percent_escape(b)
            }
        },
    }
}

/// The encoded text of a byte sequence: each byte's text, in order.
pub open spec fn encode_bytes(bytes: Seq<u8>, form: EncodeForm) -> Seq<char>
    decreases bytes.len(),
{
    if bytes.len() == 0 {
        Seq::empty()
    } else {
        encode_bytes(bytes.drop_last(), form) + encode_byte(bytes.last(), form)
    }
}

fn hex_digit(v: u8) -> (c: char)
    requires
        v < 16,
    ensures
        c == hex_upper(v),
{
    if v < 10 {
        (48u8 + v) as char
    } else {
        (55u8 + v) as char
    }
}

fn is_unreserved_byte(b: u8) -> (r: bool)
    ensures
        r == is_unreserved(b),
{
    (65 <= b && b <= 90) || (97 <= b && b <= 122) || (48 <= b && b <= 57) || b == 45 || b == 95
        || b == 46 || b == 126
}

fn is_data_url_safe_byte(b: u8) -> (r: bool)
    ensures
        r == is_data_url_safe(b),
{
    is_unreserved_byte(b) || b == 33 || b == 42 || b == 39 || b == 40 || b == 41 || b == 59 || b
        == 47 || b == 58 || b == 64 || b == 38 || b == 61 || b == 43 || b == 36 || b == 44 || b
        == 63
}

/// Appends the encoded text of `bytes` to `out`.
pub fn percent_encode_into(out: &mut String, bytes: &[u8], form: EncodeForm)
    ensures
        final(out)@ == old(out)@ + encode_bytes(bytes@, form),
{
    let n = bytes.len();
    let ghost start = out@;
    let mut i: usize = 0;
    assert(bytes@.take(0) =~= Seq::<u8>::empty());
    assert(start + Seq::<char>::empty() =~= start);
    while i < n
        invariant
            n == bytes@.len(),
            i <= n,
            out@ == start + encode_bytes(bytes@.take(i as int), form),
        decreases n - i,
    {
        let b = bytes[i];
        let ghost before = out@;
        let keep = match form {
            EncodeForm::QueryComponent => is_unreserved_byte(b),
            EncodeForm::DataUrl => is_data_url_safe_byte(b),
        };
        if keep {
            push_char(out, b as char);
        } else if b == 32 && form == EncodeForm::QueryComponent {
            push_char(out, '+');
        } else {
            push_char(out, '%');
            push_char(out, hex_digit(b / 16));
            push_char(out, hex_digit(b % 16));
        }
        proof {
            assert(out@ =~= before + encode_byte(b, form));
            assert(bytes@.take(i + 1).drop_last() =~= bytes@.take(i as int));
            assert(bytes@.take(i + 1).last() == b);
        }
        i = i + 1;
    }
    assert(bytes@.take(n as int) =~= bytes@);
}

} // verus!
