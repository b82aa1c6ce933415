//! The bearer token in the value of an `Authorization` header.

use vstd::prelude::*;

use actix_web::http::header::HeaderValue;

verus! {

/// Whether a byte of a header value is text: a printable ASCII character or a tab.
pub open spec fn is_visible_ascii(byte: u8) -> bool {
    32 <= byte < 127 || byte == 9
}

/// Whether a header value is all text.
pub open spec fn is_text(value: Seq<u8>) -> bool {
    forall|i: int| 0 <= i < value.len() ==> is_visible_ascii(#[trigger] value[i])
}

/// Whether a character is a printable ASCII character or a tab.
pub open spec fn is_visible_char(c: char) -> bool {
    ' ' <= c <= '~' || c == '\t'
}

/// ASCII bytes as characters.
pub open spec fn ascii_chars(value: Seq<u8>) -> Seq<char> {
    Seq::new(value.len(), |i: int| value[i] as char)
}

/// ASCII characters as bytes.
pub open spec fn ascii_bytes(text: Seq<char>) -> Seq<u8> {
    Seq::new(text.len(), |i: int| text[i] as u8)
}

/// The token in the value of an `Authorization` header: what follows `Bearer `, if there is a value
/// at all, it is all text, and it starts so.
pub open spec fn bearer_token(authorization: Option<Seq<u8>>) -> Option<Seq<char>> {
    match authorization {
        Some(value) => if is_text(value) && "Bearer "@.is_prefix_of(ascii_chars(value)) {
            Some(ascii_chars(value).skip("Bearer "@.len() as int))
        } else {
            None
        },
        None => None,
    }
}

/// `HeaderValue::from_bytes` and `HeaderValue::to_str` of `actix_web::http::header`: the text of a
/// header value, or nothing where a byte is neither a printable ASCII character nor a tab.
#[verifier::external_body]
pub(crate) fn header_text(value: &[u8]) -> (text: Option<String>)
    ensures
        match text {
            Some(t) => is_text(value@) && t@ == ascii_chars(value@),
            None => !is_text(value@),
        },
{
    let value = HeaderValue::from_bytes(value).ok()?;
    value.to_str().ok().map(str::to_owned)
}

/// What follows a prefix, if the text starts with it.
pub(crate) fn strip_prefix<'a>(text: &'a str, prefix: &str) -> (rest: Option<&'a str>)
    requires
        text.is_ascii(),
        prefix.is_ascii(),
    ensures
        match rest {
            Some(r) => prefix@.is_prefix_of(text@) && r@ == text@.skip(prefix@.len() as int),
            None => !prefix@.is_prefix_of(text@),
        },
{
    let text_len: usize = text.unicode_len();
    let prefix_len: usize = prefix.unicode_len();
    if text_len < prefix_len {
        return None;
    }
    let mut i: usize = 0;
    while i < prefix_len
        invariant
            i <= prefix_len <= text_len,
            text_len == text@.len(),
            prefix_len == prefix@.len(),
            forall|j: int| 0 <= j < i ==> prefix@[j] == text@[j],
        decreases prefix_len - i,
    {
        if text.get_char(i) != prefix.get_char(i) {
            assert(prefix@[i as int] != text@[i as int]);
            return None;
        }
        i += 1;
    }
    assert(prefix@ =~= text@.subrange(0, prefix_len as int));
    Some(text.substring_ascii(prefix_len, text_len))
}

} // verus!
