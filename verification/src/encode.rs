//! The form encoding of a search term (`application/x-www-form-urlencoded`).

use vstd::prelude::*;
use vstd::string::*;
use vstd::utf8::*;

verus! {

/// The bytes that the form encoding leaves as they are: ASCII letters and
/// digits, and `*`, `-`, `.`, `_`.
pub open spec fn is_unreserved(b: u8) -> bool {
    b == 0x2A || b == 0x2D || b == 0x2E || b == 0x5F || (0x30 <= b && b <= 0x39) || (0x41 <= b
        && b <= 0x5A) || (0x61 <= b && b <= 0x7A)
}

/// The upper-case hexadecimal digit of a value below sixteen.
pub open spec fn hex_digit(n: u8) -> char {
    if n < 10 {
        (0x30 + n) as u8 as char
    } else {
        (0x37 + n) as u8 as char
    }
}

/// What one byte becomes: itself, `+` for a space, or `%` and two hexadecimal
/// digits.
pub open spec fn encode_byte(b: u8) -> Seq<char> {
    if is_unreserved(b) {
        seq![b as char]
    } else if b == 0x20 {
        seq!['+']
    } else {
        seq!['%', hex_digit(b / 16), hex_digit(b % 16)]
    }
}

/// The form encoding of a byte string: the encodings of its bytes, in order.
pub open spec fn form_encode(bytes: Seq<u8>) -> Seq<char>
    decreases bytes.len(),
{
    if bytes.len() == 0 {
        Seq::empty()
    } else {
        form_encode(bytes.drop_last()) + encode_byte(bytes.last())
    }
}

/// The form encoding of a text: that of its UTF-8 bytes.
pub open spec fn encoded_term(term: Seq<char>) -> Seq<char> {
    form_encode(encode_utf8(term))
}

/// Every character of the text is one that the encoding leaves as it is.
pub open spec fn is_plain_term(term: Seq<char>) -> bool {
    forall|i: int| 0 <= i < term.len() ==> is_plain_char(#[trigger] term[i])
}

/// An ASCII letter or digit, or one of `*`, `-`, `.`, `_`.
pub open spec fn is_plain_char(c: char) -> bool {
    c == '*' || c == '-' || c == '.' || c == '_' || ('0' <= c && c <= '9') || ('A' <= c && c
        <= 'Z') || ('a' <= c && c <= 'z')
}

/// Bytes that are all unreserved are encoded as themselves.
pub proof fn lemma_unreserved_bytes_unchanged(bytes: Seq<u8>)
    requires
        forall|i: int| 0 <= i < bytes.len() ==> is_unreserved(#[trigger] bytes[i]),
    ensures
        form_encode(bytes) =~= Seq::new(bytes.len(), |i: int| bytes[i] as char),
    decreases bytes.len(),
{
    if bytes.len() > 0 {
        let front = bytes.drop_last();
        assert forall|i: int| 0 <= i < front.len() implies is_unreserved(#[trigger] front[i]) by {
            assert(front[i] == bytes[i]);
        }
        lemma_unreserved_bytes_unchanged(front);
    }
}

/// A term of unreserved characters is its own encoding.
pub proof fn lemma_plain_term_unchanged(term: Seq<char>)
    requires
        is_plain_term(term),
    ensures
        encoded_term(term) == term,
{
    assert(is_ascii_chars(term)) by {
        assert forall|i: int| 0 <= i < term.len() implies '\0' <= #[trigger] term[i] <= '\u{7f}' by {
            assert(is_plain_char(term[i]));
        }
    }
    is_ascii_chars_encode_utf8(term);
    let bytes = encode_utf8(term);
    assert forall|i: int| 0 <= i < bytes.len() implies is_unreserved(#[trigger] bytes[i]) by {
        assert(is_plain_char(term[i]));
        assert(term[i] as u8 == bytes[i]);
    }
    lemma_unreserved_bytes_unchanged(bytes);
    assert forall|i: int| 0 <= i < term.len() implies bytes[i] as char == term[i] by {
        assert(is_plain_char(term[i]));
        assert(term[i] as u8 == bytes[i]);
    }
    assert(form_encode(bytes) =~= term);
}

/// Trusted: `url::form_urlencoded::byte_serialize`, collected into a string.
/// The iterator walks the bytes once and yields, for each run of unreserved
/// bytes, the run itself, for a space `+`, and for any other byte its
/// percent-encoding with upper-case digits.
#[verifier::external_body]
pub(crate) fn byte_serialize(term: &str) -> (encoded: String)
    ensures
        encoded@ == form_encode(term.spec_bytes()),
{
    url::form_urlencoded::byte_serialize(term.as_bytes()).collect()
}

/// Form-encodes a search term.
pub fn encode_term(term: &str) -> (encoded: String)
    ensures
        encoded@ == encoded_term(term@),
{
    byte_serialize(term)
}

} // verus!
