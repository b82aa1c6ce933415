//! Base64 text in the standard alphabet, with padding.

use vstd::prelude::*;

use base64::prelude::{Engine, BASE64_STANDARD};

verus! {

/// The character that stands for six bits.
pub open spec fn base64_char(sextet: int) -> char {
    if sextet < 26 {
        ('A' as int + sextet) as char
    } else if sextet < 52 {
        ('a' as int + sextet - 26) as char
    } else if sextet < 62 {
        ('0' as int + sextet - 52) as char
    } else if sextet == 62 {
        '+'
    } else {
        '/'
    }
}

/// A byte, or zero behind the end.
pub open spec fn byte_or_zero(bytes: Seq<u8>, i: int) -> int {
    if i < bytes.len() {
        bytes[i] as int
    } else {
        0
    }
}

/// Six bits of the bytes: each three bytes are one number of 24 bits, cut into four pieces from the
/// highest bits down.
pub open spec fn sextet(bytes: Seq<u8>, i: int) -> int {
    let first = 3 * (i / 4);
    let triple = byte_or_zero(bytes, first) * 0x10000 + byte_or_zero(bytes, first + 1) * 0x100
        + byte_or_zero(bytes, first + 2);
    if i % 4 == 0 {
        triple / 0x40000
    } else if i % 4 == 1 {
        (triple / 0x1000) % 64
    } else if i % 4 == 2 {
        (triple / 0x40) % 64
    } else {
        triple % 64
    }
}

/// The base64 text of bytes: four characters for each three bytes begun; `=` where no bit of any
/// byte is left to write.
pub open spec fn base64_text(bytes: Seq<u8>) -> Seq<char> {
    Seq::new(
        4 * ((bytes.len() + 2) / 3),
        |i: int|
            if 3 * (i / 4) + i % 4 > bytes.len() {
                '='
            } else {
                base64_char(sextet(bytes, i))
            },
    )
}

/// `base64::Engine::encode` on `BASE64_STANDARD`: the text of the bytes in the standard alphabet,
/// padded with `=` to a multiple of four characters.
#[verifier::external_body]
pub(crate) fn base64_encode(bytes: &Vec<u8>) -> (text: String)
    requires
        4 * ((bytes@.len() + 2) / 3) <= isize::MAX,
    ensures
        text@ == base64_text(bytes@),
{
    BASE64_STANDARD.encode(bytes)
}

proof fn lemma_sextet_range(bytes: Seq<u8>, i: int)
    requires
        0 <= i,
    ensures
        0 <= sextet(bytes, i) < 64,
{
}

proof fn lemma_base64_char_injective(a: int, b: int)
    requires
        0 <= a < 64,
        0 <= b < 64,
        base64_char(a) == base64_char(b),
    ensures
        a == b,
{
}

/// The four pieces of a number of 24 bits, by the three bytes that it is made of.
proof fn lemma_pieces_of_triple(b0: int, b1: int, b2: int)
    requires
        0 <= b0 < 256,
        0 <= b1 < 256,
        0 <= b2 < 256,
    ensures
        ({
            let triple = b0 * 0x10000 + b1 * 0x100 + b2;
            &&& triple / 0x40000 == b0 / 4
            &&& (triple / 0x1000) % 64 == (b0 % 4) * 16 + b1 / 16
            &&& (triple / 0x40) % 64 == (b1 % 16) * 4 + b2 / 64
            &&& triple % 64 == b2 % 64
        }),
{
    let triple = b0 * 0x10000 + b1 * 0x100 + b2;
    let s1 = (b0 % 4) * 16 + b1 / 16;
    let s2 = (b1 % 16) * 4 + b2 / 64;
    assert(triple == (b0 / 4) * 0x40000 + s1 * 0x1000 + s2 * 0x40 + b2 % 64);
    assert(triple / 0x1000 == (b0 / 4) * 64 + s1);
    assert(triple / 0x40 == (b0 / 4) * 0x1000 + s1 * 64 + s2);
}

/// The byte at `i` is made of the two sextets that it overlaps.
proof fn lemma_byte_of_sextets(bytes: Seq<u8>, i: int)
    requires
        0 <= i < bytes.len(),
    ensures
        ({
            let at = 4 * (i / 3) + i % 3;
            bytes[i] == (if i % 3 == 0 {
                sextet(bytes, at) * 4 + sextet(bytes, at + 1) / 16
            } else if i % 3 == 1 {
                (sextet(bytes, at) % 16) * 16 + sextet(bytes, at + 1) / 4
            } else {
                (sextet(bytes, at) % 4) * 64 + sextet(bytes, at + 1)
            })
        }),
{
    let at = 4 * (i / 3) + i % 3;
    assert(at / 4 == i / 3 && at % 4 == i % 3);
    assert((at + 1) / 4 == i / 3 && (at + 1) % 4 == i % 3 + 1);
    lemma_pieces_of_triple(
        byte_or_zero(bytes, 3 * (i / 3)),
        byte_or_zero(bytes, 3 * (i / 3) + 1),
        byte_or_zero(bytes, 3 * (i / 3) + 2),
    );
}

/// Texts of different lengths of bytes differ: either in length, or where the shorter has padding.
proof fn lemma_base64_text_tells_lengths_apart(a: Seq<u8>, b: Seq<u8>)
    requires
        a.len() < b.len(),
    ensures
        base64_text(a) != base64_text(b),
{
    if (a.len() + 2) / 3 == (b.len() + 2) / 3 {
        let group = (a.len() - 1) / 3;
        let at = 4 * group + (a.len() - 3 * group) + 1;
        assert(at / 4 == group && at % 4 == (a.len() - 3 * group) + 1);
        assert(base64_text(a)[at] == '=');
        lemma_sextet_range(b, at);
        assert(base64_text(b)[at] != '=');
    } else {
        assert(base64_text(a).len() != base64_text(b).len());
    }
}

/// Different bytes have different base64 texts.
pub proof fn law_base64_text_tells_bytes_apart(a: Seq<u8>, b: Seq<u8>)
    ensures
        base64_text(a) == base64_text(b) <==> a == b,
{
    if a.len() < b.len() {
        lemma_base64_text_tells_lengths_apart(a, b);
    } else if b.len() < a.len() {
        lemma_base64_text_tells_lengths_apart(b, a);
    } else if base64_text(a) == base64_text(b) {
        assert forall|i: int| 0 <= i < a.len() implies a[i] == b[i] by {
            let at = 4 * (i / 3) + i % 3;
            assert(at / 4 == i / 3 && at % 4 == i % 3);
            assert((at + 1) / 4 == i / 3 && (at + 1) % 4 == i % 3 + 1);
            assert(at + 1 < 4 * ((a.len() + 2) / 3));
            assert(base64_text(a)[at] == base64_text(b)[at]);
            assert(base64_text(a)[at + 1] == base64_text(b)[at + 1]);
            lemma_sextet_range(a, at);
            lemma_sextet_range(b, at);
            lemma_sextet_range(a, at + 1);
            lemma_sextet_range(b, at + 1);
            lemma_base64_char_injective(sextet(a, at), sextet(b, at));
            lemma_base64_char_injective(sextet(a, at + 1), sextet(b, at + 1));
            lemma_byte_of_sextets(a, i);
            lemma_byte_of_sextets(b, i);
        }
        assert(a =~= b);
    }
}

} // verus!
