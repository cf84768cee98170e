//! Characters and numbers as text: trimming, comparing, decimal and hexadecimal.
use vstd::prelude::*;

verus! {

/// `String::push` appends the given character to the end of the string.
pub assume_specification[ String::push ](text: &mut String, character: char)
    ensures
        final(text)@ == old(text)@.push(character),
;

/// The characters of a text that may be missing.
pub open spec fn optional_text(text: Option<&str>) -> Option<Seq<char>> {
    match text {
        Some(text) => Some(text@),
        None => None,
    }
}

/// The characters of an owned text that may be missing.
pub open spec fn optional_string(text: Option<String>) -> Option<Seq<char>> {
    match text {
        Some(text) => Some(text@),
        None => None,
    }
}

/// The characters with the Unicode property `White_Space`.
pub open spec fn is_whitespace(c: char) -> bool {
    let code = c as u32;
    ||| 0x09 <= code <= 0x0d
    ||| code == 0x20
    ||| code == 0x85
    ||| code == 0xa0
    ||| code == 0x1680
    ||| 0x2000 <= code <= 0x200a
    ||| code == 0x2028
    ||| code == 0x2029
    ||| code == 0x202f
    ||| code == 0x205f
    ||| code == 0x3000
}

/// A text without its leading and trailing whitespace.
pub open spec fn trimmed(text: Seq<char>) -> Seq<char>
    decreases text.len(),
{
    if text.len() == 0 {
        text
    } else if is_whitespace(text.first()) {
        trimmed(text.drop_first())
    } else if is_whitespace(text.last()) {
        trimmed(text.drop_last())
    } else {
        text
    }
}

/// Whether a text holds nothing but whitespace.
pub open spec fn is_blank(text: Seq<char>) -> bool {
    forall|i: int| 0 <= i < text.len() ==> is_whitespace(#[trigger] text[i])
}

/// Whether `text` begins with `prefix`.
pub open spec fn has_prefix(text: Seq<char>, prefix: Seq<char>) -> bool {
    prefix.len() <= text.len() && text.take(prefix.len() as int) == prefix
}

/// The last position of a character in a text, and -1 where it does not occur.
pub open spec fn last_position(text: Seq<char>, wanted: char) -> int
    decreases text.len(),
{
    if text.len() == 0 {
        -1
    } else if text.last() == wanted {
        text.len() - 1
    } else {
        last_position(text.drop_last(), wanted)
    }
}

/// The lower case form of an ASCII letter; any other character as it is.
pub open spec fn ascii_lower(c: char) -> char {
    if 'A' <= c <= 'Z' {
        ((c as u8) + 32) as u8 as char
    } else {
        c
    }
}

/// A text with its ASCII letters in lower case.
pub open spec fn ascii_lowercase(text: Seq<char>) -> Seq<char> {
    Seq::new(text.len(), |i: int| ascii_lower(text[i]))
}

/// Whether a character is an ASCII decimal digit.
pub open spec fn is_digit(c: char) -> bool {
    '0' <= c <= '9'
}

/// The number that a row of decimal digits writes.
pub open spec fn digits_value(digits: Seq<char>) -> nat
    decreases digits.len(),
{
    if digits.len() == 0 {
        0
    } else {
        digits_value(digits.drop_last()) * 10 + ((digits.last() as u32) - ('0' as u32)) as nat
    }
}

/// Whether every character is an ASCII decimal digit.
pub open spec fn all_digits(text: Seq<char>) -> bool {
    forall|i: int| 0 <= i < text.len() ==> is_digit(#[trigger] text[i])
}

/// A text without the plus sign that it may begin with.
pub open spec fn without_plus(text: Seq<char>) -> Seq<char> {
    if text.len() > 0 && text[0] == '+' {
        text.drop_first()
    } else {
        text
    }
}

/// The number that a text writes: an optional plus sign, then one or more decimal digits and
/// nothing else.
pub open spec fn unsigned_value(text: Seq<char>) -> Option<nat> {
    let digits = without_plus(text);
    if digits.len() > 0 && all_digits(digits) {
        Some(digits_value(digits))
    } else {
        None
    }
}

/// The number that a text writes, where it fits in 64 bits.
pub open spec fn u64_value(text: Seq<char>) -> Option<u64> {
    match unsigned_value(text) {
        Some(number) => if number <= u64::MAX {
            Some(number as u64)
        } else {
            None
        },
        None => None,
    }
}

/// The character of a digit in bases up to sixteen.
pub open spec fn digit_char(digit: nat) -> char
    recommends
        digit < 16,
{
    if digit < 10 {
        (48 + digit) as u8 as char
    } else {
        (87 + digit) as u8 as char
    }
}

/// A number in decimal digits, without leading zeros.
pub open spec fn decimal(number: nat) -> Seq<char>
    decreases number,
{
    if number < 10 {
        seq![digit_char(number)]
    } else {
        decimal(number / 10).push(digit_char(number % 10))
    }
}

/// Bytes in lower case hexadecimal, two digits each, the high half first.
pub open spec fn hex(bytes: Seq<u8>) -> Seq<char>
    decreases bytes.len(),
{
    if bytes.len() == 0 {
        Seq::empty()
    } else {
        hex(bytes.drop_last()) + seq![
            digit_char(bytes.last() as nat / 16),
            digit_char(bytes.last() as nat % 16),
        ]
    }
}

/// A text that may be missing, as a borrowed one.
pub fn as_text(text: &Option<String>) -> (r: Option<&str>)
    ensures
        optional_text(r) == optional_string(*text),
{
    match text {
        Some(text) => Some(text.as_str()),
        None => None,
    }
}

/// An owned copy of a text that may be missing.
pub fn to_owned_text(text: Option<&str>) -> (r: Option<String>)
    ensures
        optional_string(r) == optional_text(text),
{
    match text {
        Some(text) => Some(text.to_owned()),
        None => None,
    }
}

/// Whether `c` is whitespace.
pub fn whitespace(c: char) -> (r: bool)
    ensures
        r == is_whitespace(c),
{
    let code: u32 = c as u32;
    (0x09 <= code && code <= 0x0d) || code == 0x20 || code == 0x85 || code == 0xa0 || code
        == 0x1680 || (0x2000 <= code && code <= 0x200a) || code == 0x2028 || code == 0x2029 || code
        == 0x202f || code == 0x205f || code == 0x3000
}

/// The characters of a text.
pub fn chars_of(text: &str) -> (chars: Vec<char>)
    ensures
        chars@ == text@,
{
    let mut chars: Vec<char> = Vec::new();
    for c in iter: text.chars()
        invariant
            iter.seq() == text@,
            chars@ == text@.take(iter.index()),
    {
        chars.push(c);
    }
    assert(text@.take(text@.len() as int) == text@);
    chars
}

/// Whether two texts are the same.
pub fn same_text(a: &str, b: &str) -> (r: bool)
    ensures
        r == (a@ == b@),
{
    a.to_owned() == b.to_owned()
}

/// The text without leading and trailing whitespace.
pub fn trim(text: &str) -> (r: &str)
    ensures
        r@ == trimmed(text@),
{
    let chars = chars_of(text);
    let mut start: usize = 0;
    let mut end: usize = chars.len();
    assert(text@.subrange(0, end as int) == text@);
    while start < end && whitespace(chars[start])
        invariant
            start <= end == chars@.len(),
            chars@ == text@,
            trimmed(text@) == trimmed(text@.subrange(start as int, end as int)),
        decreases end - start,
    {
        assert(text@.subrange(start as int, end as int).drop_first() == text@.subrange(
            start + 1,
            end as int,
        ));
        start += 1;
    }
    while start < end && whitespace(chars[end - 1])
        invariant
            start <= end <= chars@.len(),
            chars@ == text@,
            start < end ==> !is_whitespace(chars@[start as int]),
            trimmed(text@) == trimmed(text@.subrange(start as int, end as int)),
        decreases end - start,
    {
        assert(text@.subrange(start as int, end as int).drop_last() == text@.subrange(
            start as int,
            end - 1,
        ));
        end -= 1;
    }
    text.substring_char(start, end)
}

/// Whether the text holds nothing but whitespace.
pub fn blank(text: &str) -> (r: bool)
    ensures
        r == is_blank(text@),
{
    let chars = chars_of(text);
    for i in 0..chars.len()
        invariant
            chars@ == text@,
            forall|j: int| 0 <= j < i ==> is_whitespace(#[trigger] text@[j]),
    {
        if !whitespace(chars[i]) {
            assert(!is_whitespace(text@[i as int]));
            return false;
        }
    }
    true
}

/// Whether the text begins with the prefix.
pub fn starts_with(text: &str, prefix: &str) -> (r: bool)
    ensures
        r == has_prefix(text@, prefix@),
{
    let count: usize = prefix.unicode_len();
    if count > text.unicode_len() {
        return false;
    }
    same_text(text.substring_char(0, count), prefix)
}

/// Whether the text holds the character.
pub fn contains_char(text: &str, wanted: char) -> (r: bool)
    ensures
        r == text@.contains(wanted),
{
    let chars = chars_of(text);
    for i in 0..chars.len()
        invariant
            chars@ == text@,
            forall|j: int| 0 <= j < i ==> #[trigger] text@[j] != wanted,
    {
        if chars[i] == wanted {
            assert(text@[i as int] == wanted);
            return true;
        }
    }
    false
}

/// The last position of the character among the first `end` characters, plus one; zero where it
/// does not occur among them.
pub fn after_last(chars: &Vec<char>, end: usize, wanted: char) -> (r: usize)
    requires
        end <= chars@.len(),
    ensures
        r == last_position(chars@.take(end as int), wanted) + 1,
        r <= end,
{
    let mut i: usize = end;
    while i > 0
        invariant
            i <= end <= chars@.len(),
            last_position(chars@.take(end as int), wanted) == last_position(
                chars@.take(i as int),
                wanted,
            ),
        decreases i,
    {
        if chars[i - 1] == wanted {
            return i;
        }
        assert(chars@.take(i as int).drop_last() == chars@.take(i - 1));
        i -= 1;
    }
    0
}

/// The text with its ASCII letters in lower case.
pub fn to_ascii_lowercase(text: &str) -> (r: String)
    ensures
        r@ == ascii_lowercase(text@),
{
    let mut lowered = String::new();
    for c in iter: text.chars()
        invariant
            iter.seq() == text@,
            lowered@ == ascii_lowercase(text@.take(iter.index())),
    {
        let lower = if 'A' <= c && c <= 'Z' {
            (c as u8 + 32) as char
        } else {
            c
        };
        lowered.push(lower);
        assert(ascii_lowercase(text@.take(iter.index() + 1)) == ascii_lowercase(
            text@.take(iter.index()),
        ).push(ascii_lower(c)));
    }
    assert(text@.take(text@.len() as int) == text@);
    lowered
}

/// The number that the text writes, where it fits in 64 bits.
pub fn parse_u64(text: &str) -> (r: Option<u64>)
    ensures
        r == u64_value(text@),
{
    let chars = chars_of(text);
    let start: usize = if chars.len() > 0 && chars[0] == '+' { 1 } else { 0 };
    let ghost digits = without_plus(text@);
    assert(digits == text@.skip(start as int));
    if start == chars.len() {
        return None;
    }
    let mut value: u64 = 0;
    let mut overflow = false;
    for i in start..chars.len()
        invariant
            start <= chars@.len(),
            chars@ == text@,
            digits == text@.skip(start as int),
            digits == without_plus(text@),
            forall|j: int| 0 <= j < i - start ==> is_digit(#[trigger] digits[j]),
            !overflow ==> value == digits_value(digits.take(i - start)),
            overflow ==> digits_value(digits.take(i - start)) > u64::MAX,
    {
        let c = chars[i];
        assert(c == digits[i - start]);
        if !('0' <= c && c <= '9') {
            assert(!is_digit(digits[i - start]));
            return None;
        }
        assert(digits.take(i - start + 1).drop_last() == digits.take(i - start));
        let digit: u64 = (c as u32 - '0' as u32) as u64;
        match value.checked_mul(10) {
            Some(shifted) => {
                match shifted.checked_add(digit) {
                    Some(sum) => {
                        value = sum;
                    },
                    None => {
                        overflow = true;
                    },
                }
            },
            None => {
                overflow = true;
            },
        }
    }
    assert(digits.take(chars@.len() - start) == digits);
    if overflow {
        None
    } else {
        Some(value)
    }
}

/// The number in decimal digits.
pub fn u64_to_decimal(number: u64) -> (r: String)
    ensures
        r@ == decimal(number as nat),
    decreases number,
{
    if number < 10 {
        let mut digits = String::new();
        digits.push((48 + number as u8) as char);
        assert(digits@ == decimal(number as nat));
        digits
    } else {
        let mut digits = u64_to_decimal(number / 10);
        digits.push((48 + (number % 10) as u8) as char);
        digits
    }
}

fn hex_digit(digit: u8) -> (r: char)
    requires
        digit < 16,
    ensures
        r == digit_char(digit as nat),
{
    if digit < 10 {
        (48 + digit) as char
    } else {
        (87 + digit) as char
    }
}

/// The bytes in lower case hexadecimal.
pub fn to_hex(bytes: &[u8]) -> (r: String)
    ensures
        r@ == hex(bytes@),
{
    let mut digits = String::new();
    for i in 0..bytes.len()
        invariant
            digits@ == hex(bytes@.take(i as int)),
    {
        let byte: u8 = bytes[i];
        digits.push(hex_digit(byte / 16));
        digits.push(hex_digit(byte % 16));
        assert(bytes@.take(i + 1).drop_last() == bytes@.take(i as int));
        assert(digits@ == hex(bytes@.take(i + 1)));
    }
    assert(bytes@.take(bytes@.len() as int) == bytes@);
    digits
}

/// A text is blank exactly when nothing is left of it without the whitespace around it.
pub proof fn law_blank_text_trims_to_nothing(text: Seq<char>)
    ensures
        is_blank(text) <==> trimmed(text).len() == 0,
    decreases text.len(),
{
    if text.len() == 0 {
    } else if is_whitespace(text.first()) {
        law_blank_text_trims_to_nothing(text.drop_first());
        if is_blank(text.drop_first()) {
            assert forall|i: int| 0 <= i < text.len() implies is_whitespace(#[trigger] text[i]) by {
                if i > 0 {
                    assert(text.drop_first()[i - 1] == text[i]);
                }
            }
        }
        if is_blank(text) {
            assert forall|i: int| 0 <= i < text.drop_first().len() implies is_whitespace(
                #[trigger] text.drop_first()[i],
            ) by {
                assert(text.drop_first()[i] == text[i + 1]);
            }
        }
    } else {
        assert(!is_blank(text)) by {
            assert(!is_whitespace(text[0]));
        }
        if is_whitespace(text.last()) {
            law_blank_text_trims_to_nothing(text.drop_last());
            assert(text.drop_last()[0] == text[0]);
        }
    }
}

/// What is left of a text without the whitespace around it neither begins nor ends with
/// whitespace, so that trimming it again changes nothing.
pub proof fn law_trimming_is_final(text: Seq<char>)
    ensures
        trimmed(text).len() > 0 ==> !is_whitespace(trimmed(text).first()) && !is_whitespace(
            trimmed(text).last(),
        ),
        trimmed(trimmed(text)) == trimmed(text),
    decreases text.len(),
{
    if text.len() > 0 {
        if is_whitespace(text.first()) {
            law_trimming_is_final(text.drop_first());
        } else if is_whitespace(text.last()) {
            law_trimming_is_final(text.drop_last());
        }
    }
}

/// Whitespace at the end of a text does not change what is left of it.
pub proof fn law_trailing_whitespace_is_trimmed(text: Seq<char>, c: char)
    requires
        is_whitespace(c),
    ensures
        trimmed(text.push(c)) == trimmed(text),
        is_blank(text.push(c)) == is_blank(text),
    decreases text.len(),
{
    let longer = text.push(c);
    law_blank_text_trims_to_nothing(text);
    law_blank_text_trims_to_nothing(longer);
    if text.len() == 0 {
        assert(longer.drop_first() == text);
    } else if is_whitespace(text.first()) {
        law_trailing_whitespace_is_trimmed(text.drop_first(), c);
        assert(longer.drop_first() == text.drop_first().push(c));
        assert(longer.first() == text.first());
    } else {
        assert(longer.drop_last() == text);
        assert(longer.first() == text.first());
    }
}

proof fn lemma_decimal_digits(number: nat)
    ensures
        decimal(number).len() > 0,
        all_digits(decimal(number)),
        digits_value(decimal(number)) == number,
    decreases number,
{
    if number < 10 {
        assert(decimal(number).drop_last() == Seq::<char>::empty());
        assert(digits_value(decimal(number).drop_last()) == 0);
    } else {
        lemma_decimal_digits(number / 10);
        let digits = decimal(number);
        assert(digits.drop_last() == decimal(number / 10));
        assert forall|i: int| 0 <= i < digits.len() implies is_digit(#[trigger] digits[i]) by {
            if i < digits.len() - 1 {
                assert(digits[i] == decimal(number / 10)[i]);
            }
        }
    }
}

/// A number that is written in decimal reads back as the same number.
pub proof fn law_decimal_reads_back(number: u64)
    ensures
        u64_value(decimal(number as nat)) == Some(number),
{
    lemma_decimal_digits(number as nat);
    let digits = decimal(number as nat);
    assert(is_digit(digits[0]));
}

/// Two numbers that are written the same in decimal are the same.
pub proof fn law_decimal_is_injective(a: nat, b: nat)
    requires
        decimal(a) == decimal(b),
    ensures
        a == b,
{
    lemma_decimal_digits(a);
    lemma_decimal_digits(b);
}

/// The decimal digits of a number are nothing but digits.
pub proof fn law_decimal_is_digits(number: nat)
    ensures
        all_digits(decimal(number)),
{
    lemma_decimal_digits(number);
}

/// Hexadecimal takes two digits for each byte.
pub proof fn law_hex_length(bytes: Seq<u8>)
    ensures
        hex(bytes).len() == 2 * bytes.len(),
    decreases bytes.len(),
{
    if bytes.len() > 0 {
        law_hex_length(bytes.drop_last());
    }
}

proof fn lemma_leading_whitespace_is_trimmed(before: Seq<char>, text: Seq<char>)
    requires
        is_blank(before),
    ensures
        trimmed(before + text) == trimmed(text),
    decreases before.len(),
{
    if before.len() == 0 {
        assert(before + text =~= text);
    } else {
        let rest = before.drop_first();
        assert(is_whitespace(before[0]));
        assert forall|i: int| 0 <= i < rest.len() implies is_whitespace(#[trigger] rest[i]) by {
            assert(rest[i] == before[i + 1]);
        }
        lemma_leading_whitespace_is_trimmed(rest, text);
        assert((before + text).first() == before[0]);
        assert((before + text).drop_first() =~= rest + text);
    }
}

proof fn lemma_following_whitespace_is_trimmed(text: Seq<char>, after: Seq<char>)
    requires
        is_blank(after),
    ensures
        trimmed(text + after) == trimmed(text),
    decreases after.len(),
{
    if after.len() == 0 {
        assert(text + after =~= text);
    } else {
        let rest = after.drop_last();
        assert(is_whitespace(after[after.len() - 1]));
        assert forall|i: int| 0 <= i < rest.len() implies is_whitespace(#[trigger] rest[i]) by {
            assert(rest[i] == after[i]);
        }
        lemma_following_whitespace_is_trimmed(text, rest);
        law_trailing_whitespace_is_trimmed(text + rest, after.last());
        assert(text + after =~= (text + rest).push(after.last()));
    }
}

/// Trimming takes away the whitespace around a text and nothing else: a text that neither begins
/// nor ends with whitespace comes out of any whitespace around it as it is.
pub proof fn law_trimming_takes_only_the_margins(
    before: Seq<char>,
    core: Seq<char>,
    after: Seq<char>,
)
    requires
        is_blank(before),
        is_blank(after),
        core.len() > 0,
        !is_whitespace(core.first()),
        !is_whitespace(core.last()),
    ensures
        trimmed(before + core + after) == core,
        !is_blank(before + core + after),
{
    lemma_following_whitespace_is_trimmed(before + core, after);
    lemma_leading_whitespace_is_trimmed(before, core);
    law_blank_text_trims_to_nothing(before + core + after);
}

/// The space, the tab and the ends of lines are whitespace; letters, digits and signs of ASCII
/// are not.
pub proof fn law_ascii_whitespace(c: char)
    requires
        (c as u32) < 128,
    ensures
        is_whitespace(c) <==> c == ' ' || c == '\t' || c == '\n' || c == '\r' || c as u32 == 11 || c
            as u32 == 12,
{
}

/// A text begins with a prefix exactly where it is the prefix and something after it.
pub proof fn law_prefix_begins_the_text(text: Seq<char>, prefix: Seq<char>, rest: Seq<char>)
    ensures
        has_prefix(prefix + rest, prefix),
        has_prefix(text, prefix) ==> text == prefix + text.skip(prefix.len() as int),
{
    assert((prefix + rest).take(prefix.len() as int) =~= prefix);
    if has_prefix(text, prefix) {
        assert(text =~= text.take(prefix.len() as int) + text.skip(prefix.len() as int));
    }
}

/// The last position of a character holds that character and none after it does; there is none
/// exactly where the character does not occur.
pub proof fn law_last_position_is_the_last(text: Seq<char>, wanted: char)
    ensures
        -1 <= last_position(text, wanted) < text.len(),
        last_position(text, wanted) >= 0 ==> text[last_position(text, wanted)] == wanted,
        forall|i: int| last_position(text, wanted) < i < text.len() ==> #[trigger] text[i] != wanted,
    decreases text.len(),
{
    if text.len() > 0 && text.last() != wanted {
        let shorter = text.drop_last();
        law_last_position_is_the_last(shorter, wanted);
        assert forall|i: int| last_position(text, wanted) < i < text.len() implies #[trigger] text[i]
            != wanted by {
            if i < shorter.len() {
                assert(shorter[i] == text[i]);
            }
        }
    }
}

/// Lower case turns each of the letters A to Z into the letter at the same place of a to z, and
/// leaves every other character.
pub proof fn law_lower_case_turns_letters(text: Seq<char>, i: int)
    requires
        0 <= i < text.len(),
    ensures
        ascii_lowercase(text).len() == text.len(),
        'A' <= text[i] <= 'Z' ==> ascii_lowercase(text)[i] as int - 'a' as int == text[i] as int
            - 'A' as int,
        !('A' <= text[i] <= 'Z') ==> ascii_lowercase(text)[i] == text[i],
{
}

/// One more digit makes a number ten times as large and adds the digit.
pub proof fn law_digits_count_in_tens(digits: Seq<char>, digit: char)
    requires
        '0' <= digit <= '9',
    ensures
        digits_value(digits.push(digit)) == digits_value(digits) * 10 + (digit as int - '0' as int),
        digits_value(Seq::empty()) == 0,
{
    assert(digits.push(digit).drop_last() =~= digits);
}

/// A row of digits reads as the number that it writes, where that fits in 64 bits, with or
/// without a plus sign before it.
pub proof fn law_digits_read_as_their_number(digits: Seq<char>)
    requires
        digits.len() > 0,
        forall|i: int| 0 <= i < digits.len() ==> '0' <= #[trigger] digits[i] <= '9',
    ensures
        digits_value(digits) <= u64::MAX ==> u64_value(digits) == Some(digits_value(digits) as u64)
            && u64_value(seq!['+'] + digits) == Some(digits_value(digits) as u64),
        digits_value(digits) > u64::MAX ==> u64_value(digits) is None && u64_value(
            seq!['+'] + digits,
        ) is None,
{
    assert('0' <= digits[0] <= '9');
    assert((seq!['+'] + digits).drop_first() =~= digits);
    assert(all_digits(digits));
}

/// Nothing but digits, after at most one plus sign, reads as a number.
pub proof fn law_only_digits_read_as_a_number(text: Seq<char>, i: int)
    requires
        u64_value(text) is Some,
        0 <= i < text.len(),
    ensures
        '0' <= text[i] <= '9' || (i == 0 && text[i] == '+' && text.len() > 1),
{
    let digits = without_plus(text);
    if text[0] == '+' {
        if i > 0 {
            assert(is_digit(digits[i - 1]));
            assert(digits[i - 1] == text[i]);
        }
    } else {
        assert(is_digit(digits[i]));
    }
}

/// A text without a digit is no number: the empty text and a sign alone are none.
pub proof fn law_number_has_a_digit(text: Seq<char>)
    ensures
        u64_value(text) is Some ==> text.len() > 0 && '0' <= text.last() <= '9',
{
    if u64_value(text) is Some {
        law_only_digits_read_as_a_number(text, text.len() - 1);
    }
}

/// A number other than zero is written without a zero before it.
pub proof fn law_decimal_has_no_leading_zero(number: nat)
    requires
        number > 0,
    ensures
        decimal(number).len() > 0,
        decimal(number)[0] != '0',
    decreases number,
{
    if number >= 10 {
        law_decimal_has_no_leading_zero(number / 10);
    }
}

/// The value of a hexadecimal digit.
pub open spec fn hex_digit_value(c: char) -> int {
    if '0' <= c <= '9' {
        c as int - '0' as int
    } else {
        c as int - 'a' as int + 10
    }
}

/// In hexadecimal each byte stands as two digits of 0 to 9 and a to f, in the order of the
/// bytes, the sixteens first.
pub proof fn law_hex_writes_each_byte(bytes: Seq<u8>, i: int)
    requires
        0 <= i < bytes.len(),
    ensures
        hex(bytes).len() == 2 * bytes.len(),
        ({
            let high = hex(bytes)[2 * i];
            let low = hex(bytes)[2 * i + 1];
            &&& '0' <= high <= '9' || 'a' <= high <= 'f'
            &&& '0' <= low <= '9' || 'a' <= low <= 'f'
            &&& hex_digit_value(high) * 16 + hex_digit_value(low) == bytes[i]
        }),
    decreases bytes.len(),
{
    law_hex_length(bytes);
    law_hex_length(bytes.drop_last());
    if i < bytes.len() - 1 {
        law_hex_writes_each_byte(bytes.drop_last(), i);
        assert(hex(bytes)[2 * i] == hex(bytes.drop_last())[2 * i]);
        assert(hex(bytes)[2 * i + 1] == hex(bytes.drop_last())[2 * i + 1]);
    } else {
        assert(hex(bytes)[2 * i] == digit_char(bytes.last() as nat / 16));
        assert(hex(bytes)[2 * i + 1] == digit_char(bytes.last() as nat % 16));
    }
}

/// A text of nothing but whitespace, however long, is blank and trims to nothing; one with any
/// other character is not blank.
pub proof fn law_blank_is_nothing_but_whitespace(text: Seq<char>)
    ensures
        (forall|i: int| 0 <= i < text.len() ==> is_whitespace(#[trigger] text[i])) ==> is_blank(text)
            && trimmed(text) == Seq::<char>::empty(),
        is_blank(text) ==> forall|i: int| 0 <= i < text.len() ==> is_whitespace(#[trigger] text[i]),
{
    law_blank_text_trims_to_nothing(text);
}

/// A text that may be missing is shown as it is where it is there, the empty one too, and as
/// missing where it is not.
pub proof fn law_optional_texts_show_what_they_hold(text: &str, owned: String)
    ensures
        optional_text(Some(text)) == Some(text@),
        optional_text(None) is None,
        optional_string(Some(owned)) == Some(owned@),
        optional_string(None) is None,
{
}

} // verus!
