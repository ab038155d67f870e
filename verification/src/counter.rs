//! The kernel's elapsed-time counter: a line of text whose first field is the
//! uptime in seconds with a fraction of two digits.

use crate::text::{decimal, digit_char, lemma_two_places, zero_padded};
use vstd::prelude::*;

verus! {

/// White space, as Unicode defines it: the characters that separate the
/// fields of the counter's text.
pub open spec fn is_space(c: char) -> bool {
    let u = c as u32;
    ||| 0x09 <= u <= 0x0D
    ||| u == 0x20
    ||| u == 0x85
    ||| u == 0xA0
    ||| u == 0x1680
    ||| 0x2000 <= u <= 0x200A
    ||| u == 0x2028
    ||| u == 0x2029
    ||| u == 0x202F
    ||| u == 0x205F
    ||| u == 0x3000
}

/// The first position at or after `from` that holds no white space, or the
/// length of `text` where only white space follows.
pub open spec fn field_start(text: Seq<char>, from: nat) -> nat
    decreases text.len() - from,
{
    if from >= text.len() {
        text.len()
    } else if is_space(text[from as int]) {
        field_start(text, from + 1)
    } else {
        from
    }
}

/// The first position at or after `from` that holds white space, or the
/// length of `text` where none follows.
pub open spec fn field_end(text: Seq<char>, from: nat) -> nat
    decreases text.len() - from,
{
    if from >= text.len() {
        text.len()
    } else if is_space(text[from as int]) {
        from
    } else {
        field_end(text, from + 1)
    }
}

/// The first field of `text`: its first run of characters that are no white
/// space, taken as far as it goes. Nothing where `text` is empty or all white
/// space.
pub open spec fn first_field(text: Seq<char>) -> Option<Seq<char>> {
    let start = field_start(text, 0);
    if start >= text.len() {
        None
    } else {
        Some(text.subrange(start as int, field_end(text, start) as int))
    }
}

/// `field` with every decimal point taken out.
pub open spec fn without_points(field: Seq<char>) -> Seq<char>
    decreases field.len(),
{
    if field.len() == 0 {
        field
    } else if field.last() == '.' {
        without_points(field.drop_last())
    } else {
        without_points(field.drop_last()).push(field.last())
    }
}

/// `c` is one of the ten decimal digits.
pub open spec fn is_digit(c: char) -> bool {
    '0' <= c <= '9'
}

/// Every character of `digits` is a decimal digit.
pub open spec fn all_digits(digits: Seq<char>) -> bool {
    forall|i: int| 0 <= i < digits.len() ==> is_digit(#[trigger] digits[i])
}

/// The value of the digit `c`; zero for any other character.
pub open spec fn digit_of(c: char) -> nat {
    if is_digit(c) {
        (c as u32 - '0' as u32) as nat
    } else {
        0
    }
}

/// The number that `digits` write in base ten.
pub open spec fn digits_value(digits: Seq<char>) -> nat
    decreases digits.len(),
{
    if digits.len() == 0 {
        0
    } else {
        digits_value(digits.drop_last()) * 10 + digit_of(digits.last())
    }
}

/// `number` without a leading sign.
pub open spec fn unsigned_part(number: Seq<char>) -> Seq<char> {
    if number.len() > 0 && (number[0] == '-' || number[0] == '+') {
        number.drop_first()
    } else {
        number
    }
}

/// The integer that `number` writes: an optional sign, then one decimal digit
/// or more and nothing else, with a value that a signed 64-bit integer holds.
/// Nothing for any other text.
pub open spec fn integer_value(number: Seq<char>) -> Option<i64> {
    let digits = unsigned_part(number);
    let value = if number.len() > 0 && number[0] == '-' {
        -(digits_value(digits) as int)
    } else {
        digits_value(digits) as int
    };
    if digits.len() > 0 && all_digits(digits) && i64::MIN <= value <= i64::MAX {
        Some(value as i64)
    } else {
        None
    }
}

/// The hundredths of a second that the counter's `text` tells: its first
/// field, read as an integer once the decimal point is taken out. Nothing
/// where there is no field or the field does not read as one.
pub open spec fn counter_value(text: Seq<char>) -> Option<i64> {
    match first_field(text) {
        Some(field) => integer_value(without_points(field)),
        None => None,
    }
}

/// Whether `c` is white space.
pub fn is_whitespace(c: char) -> (b: bool)
    ensures
        b == is_space(c),
{
    let u: u32 = c as u32;
    (0x09 <= u && u <= 0x0D) || u == 0x20 || u == 0x85 || u == 0xA0 || u == 0x1680 || (0x2000 <= u
        && u <= 0x200A) || u == 0x2028 || u == 0x2029 || u == 0x202F || u == 0x205F || u == 0x3000
}

/// The characters of `text`, in order.
pub fn chars_of(text: &str) -> (chars: Vec<char>)
    ensures
        chars@ == text@,
{
    let mut chars: Vec<char> = Vec::new();
    for c in it: text.chars()
        invariant
            it.seq() == text@,
            chars@ == it.seq().take(it.index() as int),
    {
        chars.push(c);
        assert(chars@ =~= it.seq().take(it.index() + 1));
    }
    assert(chars@ =~= text@);
    chars
}

/// Where the first field of `chars` begins and ends, if there is one.
fn locate_first_field(chars: &Vec<char>) -> (range: Option<(usize, usize)>)
    ensures
        match range {
            Some((start, end)) => start < end <= chars.len() && first_field(chars@) == Some(
                chars@.subrange(start as int, end as int),
            ),
            None => first_field(chars@) is None,
        },
{
    let mut start: usize = 0;
    while start < chars.len() && is_whitespace(chars[start])
        invariant
            start <= chars.len(),
            field_start(chars@, 0) == field_start(chars@, start as nat),
        decreases chars.len() - start,
    {
        start = start + 1;
    }
    if start >= chars.len() {
        return None;
    }
    let mut end: usize = start + 1;
    while end < chars.len() && !is_whitespace(chars[end])
        invariant
            start < end <= chars.len(),
            field_end(chars@, start as nat) == field_end(chars@, end as nat),
        decreases chars.len() - end,
    {
        end = end + 1;
    }
    Some((start, end))
}

/// The characters of `chars` between `start` and `end`, decimal points left
/// out.
fn strip_points(chars: &Vec<char>, start: usize, end: usize) -> (kept: Vec<char>)
    requires
        start <= end <= chars.len(),
    ensures
        kept@ == without_points(chars@.subrange(start as int, end as int)),
{
    let mut kept: Vec<char> = Vec::new();
    let mut at: usize = start;
    while at < end
        invariant
            start <= at <= end <= chars.len(),
            kept@ == without_points(chars@.subrange(start as int, at as int)),
        decreases end - at,
    {
        proof {
            let next = chars@.subrange(start as int, at + 1);
            assert(next.drop_last() =~= chars@.subrange(start as int, at as int));
            assert(next.last() == chars[at as int]);
        }
        if chars[at] != '.' {
            kept.push(chars[at]);
        }
        at = at + 1;
    }
    kept
}

/// Digits write a number at least as large as any of their beginnings does.
pub proof fn lemma_digits_value_grows(digits: Seq<char>, shorter: int)
    requires
        0 <= shorter <= digits.len(),
    ensures
        digits_value(digits.take(shorter)) <= digits_value(digits),
    decreases digits.len(),
{
    if shorter == digits.len() {
        assert(digits.take(shorter) =~= digits);
    } else {
        assert(digits.drop_last().take(shorter) =~= digits.take(shorter));
        lemma_digits_value_grows(digits.drop_last(), shorter);
    }
}

/// Reads `number` as a signed decimal integer.
pub fn parse_integer(number: &Vec<char>) -> (value: Option<i64>)
    ensures
        value == integer_value(number@),
{
    if number.len() == 0 {
        return None;
    }
    let negative: bool = number[0] == '-';
    let from: usize = if number[0] == '-' || number[0] == '+' {
        1
    } else {
        0
    };
    if from >= number.len() {
        assert(unsigned_part(number@).len() == 0);
        return None;
    }
    let limit: u64 = if negative {
        9223372036854775808
    } else {
        9223372036854775807
    };
    let ghost digits = unsigned_part(number@);
    assert(digits =~= number@.subrange(from as int, number.len() as int));
    let mut total: u64 = 0;
    let mut at: usize = from;
    while at < number.len()
        invariant
            from <= at <= number.len(),
            digits == number@.subrange(from as int, number.len() as int),
            all_digits(digits.take(at - from)),
            total == digits_value(digits.take(at - from)),
            total <= limit,
            digits == unsigned_part(number@),
            number.len() > 0,
            negative == (number[0] == '-'),
            limit == if negative {
                9223372036854775808u64
            } else {
                9223372036854775807u64
            },
        decreases number.len() - at,
    {
        let c: char = number[at];
        assert(c == digits[at - from]);
        if !('0' <= c && c <= '9') {
            assert(!is_digit(digits[at - from]));
            return None;
        }
        let digit: u64 = (c as u32 - '0' as u32) as u64;
        proof {
            let longer = digits.take(at - from + 1);
            assert(longer.drop_last() =~= digits.take(at - from));
            assert(longer.last() == c);
            assert(digits_value(longer) == total * 10 + digit);
            assert(all_digits(longer)) by {
                assert forall|i: int| 0 <= i < longer.len() implies is_digit(
                    #[trigger] longer[i],
                ) by {
                    if i < at - from {
                        assert(digits.take(at - from)[i] == longer[i]);
                    }
                }
            }
            if total * 10 + digit > limit {
                if all_digits(digits) {
                    lemma_digits_value_grows(digits, at - from + 1);
                }
            }
        }
        if total > (limit - digit) / 10 {
            return None;
        }
        total = total * 10 + digit;
        at = at + 1;
    }
    assert(digits.take(at - from) =~= digits);
    if negative {
        if total == 9223372036854775808 {
            Some(i64::MIN)
        } else {
            Some(-(total as i64))
        }
    } else {
        Some(total as i64)
    }
}

/// The character of a digit is a digit, and has that digit's value.
pub proof fn lemma_digit_char_reads_back(d: nat)
    requires
        d < 10,
    ensures
        is_digit(digit_char(d as int)),
        digit_of(digit_char(d as int)) == d,
{
}

/// The decimal digits of a number are digits, and they write that number.
pub proof fn lemma_decimal_reads_back(n: nat)
    ensures
        all_digits(decimal(n)),
        digits_value(decimal(n)) == n,
        decimal(n).len() >= 1,
    decreases n,
{
    lemma_digit_char_reads_back(n % 10);
    let whole = decimal(n);
    if n >= 10 {
        lemma_decimal_reads_back(n / 10);
        let head = decimal(n / 10);
        assert(whole.drop_last() =~= head);
        assert(whole.last() == digit_char((n % 10) as int));
        assert forall|i: int| 0 <= i < whole.len() implies is_digit(#[trigger] whole[i]) by {
            if i < head.len() {
                assert(whole[i] == head[i]);
            }
        }
    } else {
        assert(whole.drop_last().len() == 0);
        assert(whole.last() == digit_char(n as int));
        assert(digits_value(whole.drop_last()) == 0);
    }
}

/// Two more digits behind a number multiply it by a hundred and add their
/// own value.
pub proof fn lemma_two_more_digits(digits: Seq<char>, tens: char, ones: char)
    ensures
        digits_value(digits + seq![tens, ones]) == digits_value(digits) * 100 + digit_of(tens) * 10
            + digit_of(ones),
{
    let whole = digits + seq![tens, ones];
    let head = digits.push(tens);
    assert(whole.drop_last() =~= head);
    assert(whole.last() == ones);
    assert(head.drop_last() =~= digits);
    assert(head.last() == tens);
    assert(digits_value(head) == digits_value(digits) * 10 + digit_of(tens));
    assert(digits_value(whole) == digits_value(head) * 10 + digit_of(ones));
}

/// Text without a decimal point stays as it is when the points are taken out.
pub proof fn lemma_no_point_to_take(text: Seq<char>)
    requires
        forall|i: int| 0 <= i < text.len() ==> #[trigger] text[i] != '.',
    ensures
        without_points(text) == text,
    decreases text.len(),
{
    if text.len() > 0 {
        lemma_no_point_to_take(text.drop_last());
        assert(text.drop_last().push(text.last()) =~= text);
    }
}

/// Taking the points out of two texts in a row is taking them out of each.
pub proof fn lemma_without_points_splits(first: Seq<char>, second: Seq<char>)
    ensures
        without_points(first + second) == without_points(first) + without_points(second),
    decreases second.len(),
{
    if second.len() == 0 {
        assert(first + second =~= first);
        assert(without_points(first) + without_points(second) =~= without_points(first));
    } else {
        lemma_without_points_splits(first, second.drop_last());
        assert((first + second).drop_last() =~= first + second.drop_last());
        assert((first + second).last() == second.last());
        if second.last() != '.' {
            assert((without_points(first) + without_points(second.drop_last())).push(
                second.last(),
            ) =~= without_points(first) + without_points(second.drop_last()).push(second.last()));
        }
    }
}

/// A run of characters that are no white space, followed by white space or
/// by nothing, is the first field of the text it begins.
pub proof fn lemma_leading_field(field: Seq<char>, rest: Seq<char>)
    requires
        field.len() > 0,
        forall|i: int| 0 <= i < field.len() ==> !is_space(#[trigger] field[i]),
        rest.len() == 0 || is_space(rest[0]),
    ensures
        first_field(field + rest) == Some(field),
{
    let text = field + rest;
    assert(text[0] == field[0]);
    assert(field_start(text, 0) == 0);
    lemma_field_ends_at(field, rest, 0);
    assert(text.subrange(0, field.len() as int) =~= field);
}

proof fn lemma_field_ends_at(field: Seq<char>, rest: Seq<char>, from: nat)
    requires
        from <= field.len(),
        forall|i: int| 0 <= i < field.len() ==> !is_space(#[trigger] field[i]),
        rest.len() == 0 || is_space(rest[0]),
    ensures
        field_end(field + rest, from) == field.len(),
    decreases field.len() - from,
{
    let text = field + rest;
    if from < field.len() {
        assert(text[from as int] == field[from as int]);
        lemma_field_ends_at(field, rest, from + 1);
    } else if rest.len() > 0 {
        assert(text[from as int] == rest[0]);
    }
}

/// A counter that shows whole seconds, a point and two digits of hundredths
/// reads as that many hundredths of a second, whatever follows the field.
pub proof fn lemma_counter_reads_hundredths(seconds: nat, hundredths: nat, rest: Seq<char>)
    requires
        hundredths < 100,
        seconds * 100 + hundredths <= i64::MAX,
        rest.len() == 0 || is_space(rest[0]),
    ensures
        counter_value(decimal(seconds) + seq!['.'] + zero_padded(hundredths as int, 2) + rest)
            == Some((seconds * 100 + hundredths) as i64),
{
    let whole = decimal(seconds);
    let tens = digit_char((hundredths / 10) as int);
    let ones = digit_char((hundredths % 10) as int);
    let part = seq![tens, ones];
    lemma_decimal_reads_back(seconds);
    lemma_two_places(hundredths);
    let field = whole + seq!['.'] + part;
    assert forall|i: int| 0 <= i < field.len() implies !is_space(#[trigger] field[i]) by {
        if i < whole.len() {
            assert(is_digit(whole[i]));
        }
    }
    lemma_leading_field(field, rest);
    assert(whole + seq!['.'] + zero_padded(hundredths as int, 2) + rest =~= field + rest);
    let number = whole + part;
    assert(without_points(field) == number) by {
        lemma_without_points_splits(whole + seq!['.'], part);
        lemma_without_points_splits(whole, seq!['.']);
        assert forall|i: int| 0 <= i < whole.len() implies #[trigger] whole[i] != '.' by {
            assert(is_digit(whole[i]));
        }
        lemma_no_point_to_take(whole);
        lemma_no_point_to_take(part);
        let point = seq!['.'];
        assert(point.drop_last().len() == 0);
        assert(without_points(point.drop_last()) =~= Seq::<char>::empty());
        assert(point.last() == '.');
        assert(without_points(point) =~= Seq::<char>::empty());
        assert(whole + Seq::<char>::empty() =~= whole);
    }
    assert(number[0] == whole[0]);
    assert(is_digit(whole[0]));
    assert(unsigned_part(number) == number);
    assert(all_digits(number)) by {
        assert forall|i: int| 0 <= i < number.len() implies is_digit(#[trigger] number[i]) by {
            if i < whole.len() {
                assert(is_digit(whole[i]));
            }
        }
    }
    lemma_two_more_digits(whole, tens, ones);
    assert(digits_value(number) == seconds * 100 + hundredths);
}

/// Reads the counter's text: the hundredths of a second in its first field.
pub fn parse_counter(text: &str) -> (value: Option<i64>)
    ensures
        value == counter_value(text@),
{
    let chars: Vec<char> = chars_of(text);
    match locate_first_field(&chars) {
        Some((start, end)) => {
            let number: Vec<char> = strip_points(&chars, start, end);
            parse_integer(&number)
        },
        None => None,
    }
}

} // verus!
