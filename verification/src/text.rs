//! Decimal text of integers, as the report prints them.

use vstd::prelude::*;
use vstd::string::StringExecFns;

verus! {

/// The character that stands for the digit `d`.
pub open spec fn digit_char(d: int) -> char {
    if d == 0 {
        '0'
    } else if d == 1 {
        '1'
    } else if d == 2 {
        '2'
    } else if d == 3 {
        '3'
    } else if d == 4 {
        '4'
    } else if d == 5 {
        '5'
    } else if d == 6 {
        '6'
    } else if d == 7 {
        '7'
    } else if d == 8 {
        '8'
    } else {
        '9'
    }
}

/// The decimal digits of `n`, most significant first, with no leading zero
/// (zero itself is the single digit `0`).
pub open spec fn decimal(n: nat) -> Seq<char>
    decreases n,
{
    if n < 10 {
        seq![digit_char(n as int)]
    } else {
        decimal(n / 10).push(digit_char((n % 10) as int))
    }
}

/// `count` copies of `c`.
pub open spec fn repeated(c: char, count: nat) -> Seq<char> {
    Seq::new(count, |i: int| c)
}

/// The sign that precedes the digits of `n`: a minus for a negative number,
/// nothing otherwise.
pub open spec fn sign_text(n: int) -> Seq<char> {
    if n < 0 {
        seq!['-']
    } else {
        Seq::empty()
    }
}

/// The digits of the magnitude of `n`.
pub open spec fn magnitude_text(n: int) -> Seq<char> {
    if n < 0 {
        decimal((-n) as nat)
    } else {
        decimal(n as nat)
    }
}

/// How many fill characters bring `n` up to `width` characters.
pub open spec fn fill_count(n: int, width: nat) -> nat {
    let used = sign_text(n).len() + magnitude_text(n).len();
    if used >= width {
        0
    } else {
        (width - used) as nat
    }
}

/// `n` right-aligned in a field of at least `width` characters, filled with
/// spaces on the left. A number wider than the field is not cut.
pub open spec fn space_padded(n: int, width: nat) -> Seq<char> {
    repeated(' ', fill_count(n, width)) + sign_text(n) + magnitude_text(n)
}

/// `n` in a field of at least `width` characters, filled with zeros between
/// the sign and the digits. A number wider than the field is not cut.
pub open spec fn zero_padded(n: int, width: nat) -> Seq<char> {
    sign_text(n) + repeated('0', fill_count(n, width)) + magnitude_text(n)
}

/// Every number has at least one digit.
pub proof fn lemma_decimal_nonempty(n: nat)
    ensures
        decimal(n).len() >= 1,
    decreases n,
{
    if n >= 10 {
        lemma_decimal_nonempty(n / 10);
    }
}

/// Ten to the power `k`.
pub open spec fn pow10(k: nat) -> nat
    decreases k,
{
    if k == 0 {
        1
    } else {
        10 * pow10((k - 1) as nat)
    }
}

/// A number below ten to the `k` has at most `k` digits.
pub proof fn lemma_decimal_len_bound(n: nat, k: nat)
    requires
        k >= 1,
        n < pow10(k),
    ensures
        decimal(n).len() <= k,
    decreases n,
{
    if n >= 10 {
        assert(pow10(1) == 10) by {
            reveal_with_fuel(pow10, 2);
        }
        assert(k >= 2);
        assert(pow10(k) == 10 * pow10((k - 1) as nat));
        lemma_decimal_len_bound(n / 10, (k - 1) as nat);
    }
}

/// A number below a hundred, filled with zeros to two places, is its tens
/// digit and its ones digit.
pub proof fn lemma_two_places(n: nat)
    requires
        n < 100,
    ensures
        zero_padded(n as int, 2) == seq![digit_char((n / 10) as int), digit_char((n % 10) as int)],
{
    if n >= 10 {
        assert(decimal(n / 10) =~= seq![digit_char((n / 10) as int)]);
        assert(decimal(n) =~= seq![digit_char((n / 10) as int), digit_char((n % 10) as int)]);
    } else {
        assert(decimal(n) =~= seq![digit_char(n as int)]);
    }
    assert(zero_padded(n as int, 2) =~= seq![
        digit_char((n / 10) as int),
        digit_char((n % 10) as int),
    ]);
}

fn digit_str(d: u64) -> (s: &'static str)
    requires
        d < 10,
    ensures
        s@ == seq![digit_char(d as int)],
{
    proof {
        reveal_strlit("0");
        reveal_strlit("1");
        reveal_strlit("2");
        reveal_strlit("3");
        reveal_strlit("4");
        reveal_strlit("5");
        reveal_strlit("6");
        reveal_strlit("7");
        reveal_strlit("8");
        reveal_strlit("9");
    }
    let s: &'static str = if d == 0 {
        "0"
    } else if d == 1 {
        "1"
    } else if d == 2 {
        "2"
    } else if d == 3 {
        "3"
    } else if d == 4 {
        "4"
    } else if d == 5 {
        "5"
    } else if d == 6 {
        "6"
    } else if d == 7 {
        "7"
    } else if d == 8 {
        "8"
    } else {
        "9"
    };
    assert(s@ =~= seq![digit_char(d as int)]);
    s
}

/// Appends the decimal digits of `n` to `out`.
pub fn push_decimal(out: &mut String, n: u64)
    ensures
        final(out)@ == old(out)@ + decimal(n as nat),
    decreases n,
{
    if n >= 10 {
        push_decimal(out, n / 10);
    }
    out.append(digit_str(n % 10));
    assert(final(out)@ =~= old(out)@ + decimal(n as nat));
}

fn push_repeated(out: &mut String, c: &'static str, count: usize)
    requires
        c@.len() == 1,
    ensures
        final(out)@ == old(out)@ + repeated(c@[0], count as nat),
{
    let mut done: usize = 0;
    while done < count
        invariant
            done <= count,
            c@.len() == 1,
            out@ == old(out)@ + repeated(c@[0], done as nat),
        decreases count - done,
    {
        out.append(c);
        done = done + 1;
        assert(out@ =~= old(out)@ + repeated(c@[0], done as nat));
    }
}

fn magnitude(n: i64) -> (m: u64)
    ensures
        m == if n < 0 {
            -n
        } else {
            n as int
        },
{
    if n < 0 {
        let below: i64 = -(n + 1);
        below as u64 + 1
    } else {
        n as u64
    }
}

fn digit_count(m: u64) -> (count: usize)
    ensures
        count == decimal(m as nat).len(),
        1 <= count <= 20,
{
    proof {
        assert(pow10(20) == 100000000000000000000) by {
            reveal_with_fuel(pow10, 21);
        }
        lemma_decimal_len_bound(m as nat, 20);
    }
    let mut rest: u64 = m;
    let mut count: usize = 1;
    while rest >= 10
        invariant
            1 <= count,
            count + decimal(rest as nat).len() == decimal(m as nat).len() + 1,
            decimal(m as nat).len() <= 20,
        decreases rest,
    {
        proof {
            lemma_decimal_nonempty((rest / 10) as nat);
        }
        rest = rest / 10;
        count = count + 1;
    }
    count
}

fn fill_for(n: i64, width: usize) -> (count: usize)
    ensures
        count == fill_count(n as int, width as nat),
{
    let digits: usize = digit_count(magnitude(n));
    let used: usize = if n < 0 {
        digits + 1
    } else {
        digits
    };
    if used >= width {
        0
    } else {
        width - used
    }
}

fn push_sign(out: &mut String, n: i64)
    ensures
        final(out)@ == old(out)@ + sign_text(n as int),
{
    if n < 0 {
        proof {
            reveal_strlit("-");
        }
        out.append("-");
        assert(out@ =~= old(out)@ + sign_text(n as int));
    } else {
        assert(out@ =~= old(out)@ + sign_text(n as int));
    }
}

/// Appends `n` to `out`, right-aligned with spaces in a field of `width`.
pub fn push_space_padded(out: &mut String, n: i64, width: usize)
    ensures
        final(out)@ == old(out)@ + space_padded(n as int, width as nat),
{
    proof {
        reveal_strlit(" ");
    }
    push_repeated(out, " ", fill_for(n, width));
    push_sign(out, n);
    push_decimal(out, magnitude(n));
    assert(out@ =~= old(out)@ + space_padded(n as int, width as nat));
}

/// Appends `n` to `out`, filled with zeros in a field of `width`.
pub fn push_zero_padded(out: &mut String, n: i64, width: usize)
    ensures
        final(out)@ == old(out)@ + zero_padded(n as int, width as nat),
{
    proof {
        reveal_strlit("0");
    }
    push_sign(out, n);
    push_repeated(out, "0", fill_for(n, width));
    push_decimal(out, magnitude(n));
    assert(out@ =~= old(out)@ + zero_padded(n as int, width as nat));
}

} // verus!
