//! Small operations on text: comparing, trimming, reading a number.

use vstd::prelude::*;

verus! {

/// Whether `char::is_whitespace` holds of a character: whether Unicode gives it
/// the property White_Space.
pub uninterp spec fn white_space(c: char) -> bool;

/// Calls `char::is_whitespace`. The contract gives the answer its name and
/// says nothing of which characters are white space.
#[verifier::external_body]
fn is_white_space(c: char) -> (white: bool)
    ensures
        white == white_space(c),
{
    c.is_whitespace()
}

/// A text is blank when it holds nothing but white space; the empty text is.
pub open spec fn blank(text: Seq<char>) -> bool {
    forall|i: int| 0 <= i < text.len() ==> white_space(#[trigger] text[i])
}

/// Whether a text is blank.
pub fn is_blank(text: &str) -> (answer: bool)
    ensures
        answer == blank(text@),
{
    let length = text.unicode_len();
    let mut at: usize = 0;
    while at < length
        invariant
            length == text@.len(),
            at <= length,
            forall|i: int| 0 <= i < at ==> white_space(#[trigger] text@[i]),
        decreases length - at,
    {
        if !is_white_space(text.get_char(at)) {
            return false;
        }
        at += 1;
    }
    true
}

/// Whether two texts hold the same characters.
pub fn same_text(left: &str, right: &str) -> (same: bool)
    ensures
        same == (left@ == right@),
{
    let length = left.unicode_len();
    if length != right.unicode_len() {
        return false;
    }
    let mut at: usize = 0;
    while at < length
        invariant
            length == left@.len(),
            length == right@.len(),
            at <= length,
            forall|i: int| 0 <= i < at ==> left@[i] == right@[i],
        decreases length - at,
    {
        if left.get_char(at) != right.get_char(at) {
            return false;
        }
        at += 1;
    }
    assert(left@ =~= right@);
    true
}

/// A text without the white space at its start.
pub open spec fn trim_start(text: Seq<char>) -> Seq<char>
    decreases text.len(),
{
    if text.len() > 0 && white_space(text[0]) {
        trim_start(text.drop_first())
    } else {
        text
    }
}

/// A text without the white space at its end.
pub open spec fn trim_end(text: Seq<char>) -> Seq<char>
    decreases text.len(),
{
    if text.len() > 0 && white_space(text.last()) {
        trim_end(text.drop_last())
    } else {
        text
    }
}

/// A text without the white space at its start and at its end.
pub open spec fn trimmed(text: Seq<char>) -> Seq<char> {
    trim_end(trim_start(text))
}

/// Trimming at the start leaves a text that does not start with white space,
/// and leaves nothing exactly of a blank text.
proof fn lemma_trim_start(text: Seq<char>)
    ensures
        trim_start(text).len() > 0 ==> !white_space(trim_start(text)[0]),
        trim_start(text).len() == 0 <==> blank(text),
    decreases text.len(),
{
    if text.len() > 0 && white_space(text[0]) {
        let rest = text.drop_first();
        lemma_trim_start(rest);
        if blank(rest) {
            assert forall|i: int| 0 <= i < text.len() implies white_space(#[trigger] text[i]) by {
                if i > 0 {
                    assert(text[i] == rest[i - 1]);
                }
            }
        }
        if blank(text) {
            assert forall|i: int| 0 <= i < rest.len() implies white_space(#[trigger] rest[i]) by {
                assert(rest[i] == text[i + 1]);
            }
        }
    } else if text.len() > 0 {
        assert(!white_space(text[0]));
    }
}

/// Trimming at the end leaves the start of a text that does not start with
/// white space.
proof fn lemma_trim_end_keeps_start(text: Seq<char>)
    requires
        text.len() > 0,
        !white_space(text[0]),
    ensures
        trim_end(text).len() > 0,
    decreases text.len(),
{
    if white_space(text.last()) {
        assert(text.len() > 1);
        assert(text.drop_last()[0] == text[0]);
        lemma_trim_end_keeps_start(text.drop_last());
    }
}

/// Trimming leaves nothing of a text exactly when the text is blank.
pub proof fn lemma_blank_is_trimmed_empty(text: Seq<char>)
    ensures
        blank(text) <==> trimmed(text).len() == 0,
{
    lemma_trim_start(text);
    if trim_start(text).len() > 0 {
        lemma_trim_end_keeps_start(trim_start(text));
    }
}

/// The part of a text between the white space at its start and at its end.
pub fn trim(text: &str) -> (inner: &str)
    ensures
        inner@ == trimmed(text@),
{
    let length = text.unicode_len();
    let mut from: usize = 0;
    assert(text@.subrange(0, length as int) =~= text@);
    while from < length && is_white_space(text.get_char(from))
        invariant
            length == text@.len(),
            from <= length,
            trim_start(text@) == trim_start(text@.subrange(from as int, length as int)),
        decreases length - from,
    {
        assert(text@.subrange(from as int, length as int).drop_first() =~= text@.subrange(
            from as int + 1,
            length as int,
        ));
        from += 1;
    }
    let ghost tail = text@.subrange(from as int, length as int);
    assert(trim_start(text@) == tail);
    let mut to: usize = length;
    while to > from && is_white_space(text.get_char(to - 1))
        invariant
            length == text@.len(),
            from <= to <= length,
            trim_end(tail) == trim_end(text@.subrange(from as int, to as int)),
            tail == text@.subrange(from as int, length as int),
        decreases to,
    {
        assert(text@.subrange(from as int, to as int).drop_last() =~= text@.subrange(
            from as int,
            to as int - 1,
        ));
        to -= 1;
    }
    text.substring_char(from, to)
}

/// The value of a decimal digit.
pub open spec fn digit(c: char) -> Option<nat> {
    if '0' <= c <= '9' {
        Some((c as int - '0' as int) as nat)
    } else {
        None
    }
}

/// The number that a run of decimal digits writes. The empty text, and one
/// that holds anything but digits, writes none.
pub open spec fn decimal(text: Seq<char>) -> Option<nat>
    decreases text.len(),
{
    if text.len() == 0 {
        None
    } else if text.len() == 1 {
        digit(text[0])
    } else {
        match (decimal(text.drop_last()), digit(text.last())) {
            (Some(high), Some(low)) => Some(10 * high + low),
            _ => None,
        }
    }
}

/// The number that a text writes: decimal digits, after a plus sign or
/// without one, with a value that a `usize` can hold.
pub open spec fn number(text: Seq<char>) -> Option<usize> {
    let digits = if text.len() > 0 && text[0] == '+' {
        text.drop_first()
    } else {
        text
    };
    match decimal(digits) {
        Some(value) => if value <= usize::MAX {
            Some(value as usize)
        } else {
            None
        },
        None => None,
    }
}

/// A run of digits writes at least what any shorter start of it writes, and
/// such a start holds digits only.
proof fn lemma_decimal_grows(text: Seq<char>, count: int)
    requires
        1 <= count <= text.len(),
        decimal(text) is Some,
    ensures
        decimal(text.take(count)) is Some,
        decimal(text.take(count))->0 <= decimal(text)->0,
    decreases text.len(),
{
    if count == text.len() {
        assert(text.take(count) =~= text);
    } else {
        assert(text.drop_last().take(count) =~= text.take(count));
        lemma_decimal_grows(text.drop_last(), count);
    }
}

/// The value of one character as a digit.
fn digit_of(c: char) -> (value: Option<usize>)
    ensures
        match value {
            Some(low) => digit(c) == Some(low as nat),
            None => digit(c) is None,
        },
{
    if '0' <= c && c <= '9' {
        Some((c as u32 - '0' as u32) as usize)
    } else {
        None
    }
}

/// Reads a number.
pub fn parse_number(text: &str) -> (value: Option<usize>)
    ensures
        value == number(text@),
{
    let length = text.unicode_len();
    let start: usize = if length > 0 && text.get_char(0) == '+' {
        1
    } else {
        0
    };
    let ghost digits = if text@.len() > 0 && text@[0] == '+' {
        text@.drop_first()
    } else {
        text@
    };
    assert(digits =~= text@.subrange(start as int, length as int));
    if start == length {
        return None;
    }
    let mut total: usize = 0;
    let mut at: usize = start;
    while at < length
        invariant
            length == text@.len(),
            start < length,
            start <= at <= length,
            digits == text@.subrange(start as int, length as int),
            number(text@) == match decimal(digits) {
                Some(value) => if value <= usize::MAX {
                    Some(value as usize)
                } else {
                    None
                },
                None => None,
            },
            at == start ==> total == 0,
            at > start ==> decimal(digits.take(at - start)) == Some(total as nat),
        decreases length - at,
    {
        let ghost seen = digits.take(at - start + 1);
        assert(seen.drop_last() =~= digits.take(at - start));
        assert(seen.last() == text@[at as int]);
        match digit_of(text.get_char(at)) {
            None => {
                proof {
                    assert(digit(seen.last()) is None);
                    assert(decimal(seen) is None);
                    if decimal(digits) is Some {
                        lemma_decimal_grows(digits, at - start + 1);
                    }
                }
                return None;
            },
            Some(low) => {
                assert(digit(seen.last()) == Some(low as nat));
                assert(decimal(seen) == Some((10 * total + low) as nat));
                if total > (usize::MAX - low) / 10 {
                    proof {
                        if decimal(digits) is Some {
                            lemma_decimal_grows(digits, at - start + 1);
                        }
                    }
                    return None;
                }
                total = total * 10 + low;
            },
        }
        at += 1;
    }
    assert(digits.take(length - start) =~= digits);
    Some(total)
}

/// The character that writes a digit.
pub open spec fn digit_char(value: nat) -> char
    recommends
        value < 10,
{
    ('0' as int + value) as char
}

/// A number written in decimal digits, with no sign and no leading zero.
pub open spec fn number_text(value: nat) -> Seq<char>
    decreases value,
{
    if value < 10 {
        seq![digit_char(value)]
    } else {
        number_text(value / 10).push(digit_char(value % 10))
    }
}

/// The text of one digit.
fn digit_text(value: usize) -> (text: &'static str)
    requires
        value < 10,
    ensures
        text@ == seq![digit_char(value as nat)],
{
    proof {
        reveal_strlit("0");
        reveal_strlit("1");
        reveal_strlit("2");
        reveal_strlit("3");
        reveal_strlit("4");
        reveal_strlit("5");
        reveal_strlit("6");
        reveal_strlit("7");
        reveal_strlit("8");
        reveal_strlit("9");
    }
    let text = if value == 0 {
        "0"
    } else if value == 1 {
        "1"
    } else if value == 2 {
        "2"
    } else if value == 3 {
        "3"
    } else if value == 4 {
        "4"
    } else if value == 5 {
        "5"
    } else if value == 6 {
        "6"
    } else if value == 7 {
        "7"
    } else if value == 8 {
        "8"
    } else {
        "9"
    };
    assert(text@ =~= seq![digit_char(value as nat)]);
    text
}

/// Writes a number in decimal digits.
pub fn write_number(value: usize) -> (text: String)
    ensures
        text@ == number_text(value as nat),
    decreases value,
{
    if value < 10 {
        String::from_str(digit_text(value))
    } else {
        let mut text = write_number(value / 10);
        let ghost high = text@;
        text.append(digit_text(value % 10));
        assert(text@ =~= high.push(digit_char((value % 10) as nat)));
        text
    }
}

/// What is written for a number is read as that number.
pub proof fn lemma_number_round_trip(value: usize)
    ensures
        number(number_text(value as nat)) == Some(value),
{
    lemma_decimal_of_number_text(value as nat);
    let text = number_text(value as nat);
    assert(text.len() > 0 && text[0] != '+') by {
        lemma_number_text_digits(value as nat, 0);
    }
}

/// A written number holds digits only, and at least one.
proof fn lemma_number_text_digits(value: nat, i: int)
    ensures
        number_text(value).len() >= 1,
        0 <= i < number_text(value).len() ==> digit(number_text(value)[i]) is Some,
    decreases value,
{
    if value >= 10 {
        lemma_number_text_digits(value / 10, i);
    }
}

/// The digits written for a number have that number as their value.
proof fn lemma_decimal_of_number_text(value: nat)
    ensures
        decimal(number_text(value)) == Some(value),
    decreases value,
{
    if value >= 10 {
        lemma_decimal_of_number_text(value / 10);
        lemma_number_text_digits(value / 10, 0);
        let text = number_text(value);
        assert(text.drop_last() =~= number_text(value / 10));
        assert(text.last() == digit_char(value % 10));
        assert(digit(text.last()) == Some(value % 10));
    } else {
        assert(digit(digit_char(value)) == Some(value));
    }
}

} // verus!
