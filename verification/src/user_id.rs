//! The ids of users, which are UUIDs, and their text.

use vstd::prelude::*;

verus! {

/// The id of a user: the 128 bits of a UUID, the first byte in the highest bits.
#[derive(Clone, Copy, PartialEq, Eq, Structural, Debug)]
pub struct UserId {
    pub value: u128,
}

/// The value of a hexadecimal digit of either case.
pub open spec fn hex_digit(c: char) -> Option<int> {
    if '0' <= c <= '9' {
        Some(c as int - '0' as int)
    } else if 'a' <= c <= 'f' {
        Some(c as int - 'a' as int + 10)
    } else if 'A' <= c <= 'F' {
        Some(c as int - 'A' as int + 10)
    } else {
        None
    }
}

/// The number that hexadecimal digits write, the highest digit first; nothing where some character
/// is no digit.
pub open spec fn hex_number(digits: Seq<char>) -> Option<int>
    decreases digits.len(),
{
    if digits.len() == 0 {
        Some(0)
    } else {
        match (hex_number(digits.drop_last()), hex_digit(digits.last())) {
            (Some(high), Some(low)) => Some(high * 16 + low),
            _ => None,
        }
    }
}

/// The lower-case hexadecimal digit of a value below sixteen.
pub open spec fn hex_char(digit: int) -> char {
    if digit < 10 {
        ('0' as int + digit) as char
    } else {
        ('a' as int + digit - 10) as char
    }
}

/// The last `width` hexadecimal digits of a number, in lower case.
pub open spec fn hex_text(number: int, width: nat) -> Seq<char>
    decreases width,
{
    if width == 0 {
        Seq::empty()
    } else {
        hex_text(number / 16, (width - 1) as nat).push(hex_char(number % 16))
    }
}

/// Thirty-two digits with hyphens behind the 8th, 12th, 16th and 20th.
pub open spec fn with_hyphens(digits: Seq<char>) -> Seq<char> {
    digits.subrange(0, 8) + seq!['-'] + digits.subrange(8, 12) + seq!['-'] + digits.subrange(12, 16)
        + seq!['-'] + digits.subrange(16, 20) + seq!['-'] + digits.subrange(20, 32)
}

/// The canonical text of a UUID: lower-case digits in five groups.
pub open spec fn uuid_text(value: u128) -> Seq<char> {
    with_hyphens(hex_text(value as int, 32))
}

/// The number that a text of five groups of digits writes.
pub open spec fn hyphenated_number(text: Seq<char>) -> Option<int> {
    if text.len() == 36 && text[8] == '-' && text[13] == '-' && text[18] == '-' && text[23] == '-' {
        hex_number(
            text.subrange(0, 8) + text.subrange(9, 13) + text.subrange(14, 18) + text.subrange(
                19,
                23,
            ) + text.subrange(24, 36),
        )
    } else {
        None
    }
}

/// Whether a character is the given lower-case letter in either case, or the given character.
pub open spec fn is_letter_or_same(c: char, lower: char) -> bool {
    c == lower || ('a' <= lower <= 'z' && c as int + 32 == lower as int)
}

/// Whether a text starts with `urn:uuid:`, in whatever case.
pub open spec fn has_urn_prefix(text: Seq<char>) -> bool {
    let prefix = seq!['u', 'r', 'n', ':', 'u', 'u', 'i', 'd', ':'];
    forall|i: int| 0 <= i < 9 ==> is_letter_or_same(#[trigger] text[i], prefix[i])
}

/// The number of the UUID that a text writes: thirty-two digits, or five groups of digits, which
/// may stand in braces or behind `urn:uuid:`.
pub open spec fn uuid_number(text: Seq<char>) -> Option<int> {
    if text.len() == 32 {
        hex_number(text)
    } else if text.len() == 36 {
        hyphenated_number(text)
    } else if text.len() == 38 && text[0] == '{' && text[37] == '}' {
        hyphenated_number(text.subrange(1, 37))
    } else if text.len() == 45 && has_urn_prefix(text) {
        hyphenated_number(text.subrange(9, 45))
    } else {
        None
    }
}

impl UserId {
    /// The id that a text writes, or nothing where it writes none.
    pub open spec fn spec_parse(text: Seq<char>) -> Option<UserId> {
        match uuid_number(text) {
            Some(number) => Some(UserId { value: number as u128 }),
            None => None,
        }
    }

    /// Reads an id from one of the texts of a UUID.
    pub fn parse_str(text: &str) -> (id: Option<UserId>)
        ensures
            id == UserId::spec_parse(text@),
    {
        match parse_uuid(text) {
            Some(value) => Some(UserId { value }),
            None => None,
        }
    }

    /// The canonical text of the id.
    pub fn to_text(&self) -> (text: String)
        ensures
            text@ == uuid_text(self.value),
    {
        format_uuid(self.value)
    }
}

/// `uuid::Uuid::parse_str`: reads 32 hexadecimal digits of either case, plain or in five groups,
/// the groups bare, in braces or behind `urn:uuid:`, and refuses every other text.
#[verifier::external_body]
fn parse_uuid(text: &str) -> (value: Option<u128>)
    ensures
        match value {
            Some(v) => uuid_number(text@) == Some(v as int),
            None => uuid_number(text@) is None,
        },
{
    uuid::Uuid::parse_str(text).ok().map(|id| id.as_u128())
}

/// `uuid::Uuid::as_hyphenated`, displayed: the five groups of lower-case digits.
#[verifier::external_body]
fn format_uuid(value: u128) -> (text: String)
    ensures
        text@ == uuid_text(value),
{
    uuid::Uuid::from_u128(value).as_hyphenated().to_string()
}

/// Sixteen to the power of `n`.
spec fn pow16(n: nat) -> int
    decreases n,
{
    if n == 0 {
        1
    } else {
        16 * pow16((n - 1) as nat)
    }
}

proof fn lemma_hex_text(number: int, width: nat)
    requires
        0 <= number < pow16(width),
    ensures
        hex_text(number, width).len() == width,
        hex_number(hex_text(number, width)) == Some(number),
    decreases width,
{
    if width > 0 {
        lemma_hex_text(number / 16, (width - 1) as nat);
        let text = hex_text(number, width);
        assert(text.drop_last() =~= hex_text(number / 16, (width - 1) as nat));
        assert(hex_digit(hex_char(number % 16)) == Some(number % 16));
    }
}

proof fn lemma_hex_number_range(digits: Seq<char>)
    ensures
        hex_number(digits) matches Some(number) ==> 0 <= number < pow16(digits.len()),
    decreases digits.len(),
{
    if digits.len() > 0 {
        lemma_hex_number_range(digits.drop_last());
    }
}

/// A text writes an id if and only if it writes a UUID, and then the bits of the id are the number
/// of that UUID.
pub proof fn law_id_is_the_number(text: Seq<char>, id: UserId)
    ensures
        UserId::spec_parse(text) == Some(id) <==> uuid_number(text) == Some(id.value as int),
        UserId::spec_parse(text) is None <==> uuid_number(text) is None,
{
    assert(pow16(32) == 0x1_0000_0000_0000_0000_0000_0000_0000_0000) by {
        reveal_with_fuel(pow16, 33);
    }
    lemma_hex_number_range(text);
    if text.len() == 36 {
        lemma_hyphenated_number_range(text);
    } else if text.len() == 38 {
        lemma_hyphenated_number_range(text.subrange(1, 37));
    } else if text.len() == 45 {
        lemma_hyphenated_number_range(text.subrange(9, 45));
    }
}

proof fn lemma_hyphenated_number_range(text: Seq<char>)
    requires
        text.len() == 36,
    ensures
        hyphenated_number(text) matches Some(number) ==> 0 <= number < pow16(32),
{
    lemma_hex_number_range(
        text.subrange(0, 8) + text.subrange(9, 13) + text.subrange(14, 18) + text.subrange(19, 23)
            + text.subrange(24, 36),
    );
}

proof fn lemma_hex_text_digits(number: int, width: nat)
    ensures
        hex_text(number, width).len() == width,
        forall|i: int|
            0 <= i < width ==> ('0' <= #[trigger] hex_text(number, width)[i] <= '9' || 'a'
                <= hex_text(number, width)[i] <= 'f'),
    decreases width,
{
    if width > 0 {
        lemma_hex_text_digits(number / 16, (width - 1) as nat);
        let c = hex_char(number % 16);
        assert('0' <= c <= '9' || 'a' <= c <= 'f');
    }
}

/// The text of an id has 36 characters: hyphens in four places, lower-case hexadecimal digits in all
/// others.
pub proof fn law_text_is_canonical(id: UserId)
    ensures
        uuid_text(id.value).len() == 36,
        forall|i: int|
            0 <= i < 36 ==> if i == 8 || i == 13 || i == 18 || i == 23 {
                #[trigger] uuid_text(id.value)[i] == '-'
            } else {
                '0' <= uuid_text(id.value)[i] <= '9' || 'a' <= uuid_text(id.value)[i] <= 'f'
            },
{
    lemma_hex_text_digits(id.value as int, 32);
    let digits = hex_text(id.value as int, 32);
    let text = uuid_text(id.value);
    assert forall|i: int| 0 <= i < 36 implies if i == 8 || i == 13 || i == 18 || i == 23 {
        #[trigger] text[i] == '-'
    } else {
        '0' <= text[i] <= '9' || 'a' <= text[i] <= 'f'
    } by {
        let before: int = if i < 8 {
            0
        } else if i < 13 {
            1
        } else if i < 18 {
            2
        } else if i < 23 {
            3
        } else {
            4
        };
        if i != 8 && i != 13 && i != 18 && i != 23 {
            assert(text[i] == digits[i - before]);
        }
    }
}

/// The text of an id reads back as that id.
pub proof fn law_text_reads_back(id: UserId)
    ensures
        UserId::spec_parse(uuid_text(id.value)) == Some(id),
{
    assert(pow16(32) == 0x1_0000_0000_0000_0000_0000_0000_0000_0000) by {
        reveal_with_fuel(pow16, 33);
    }
    lemma_hex_text(id.value as int, 32);
    let digits = hex_text(id.value as int, 32);
    let text = uuid_text(id.value);
    assert(text.len() == 36);
    assert(text.subrange(0, 8) + text.subrange(9, 13) + text.subrange(14, 18) + text.subrange(
        19,
        23,
    ) + text.subrange(24, 36) =~= digits);
}

} // verus!
