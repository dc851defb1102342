//! Currency text: reading an amount of minor units out of free-form markup
//! text, and writing one back as dollars and cents. The incremental filter
//! is at hand here too.

pub use crate::filter::get_blacklist_and_updatelist;
use vstd::prelude::*;

verus! {

/// Whether a character is one of `'0'` to `'9'`.
pub open spec fn is_decimal_digit(c: char) -> bool {
    '0' <= c && c <= '9'
}

/// The number a decimal digit stands for.
pub open spec fn digit_value(c: char) -> nat {
    (c as u32 - 48) as nat
}

/// The character that writes a number below ten.
pub open spec fn digit_char(d: nat) -> char {
    ((48 + d) as u8) as char
}

/// The decimal digits of a text, in order, every other character dropped.
pub open spec fn digits_of(s: Seq<char>) -> Seq<char>
    decreases s.len(),
{
    if s.len() == 0 {
        s
    } else if is_decimal_digit(s.last()) {
        digits_of(s.drop_last()).push(s.last())
    } else {
        digits_of(s.drop_last())
    }
}

/// The number that a run of decimal digits writes; the empty run writes zero.
pub open spec fn decimal_value(digits: Seq<char>) -> nat
    decreases digits.len(),
{
    if digits.len() == 0 {
        0
    } else {
        decimal_value(digits.drop_last()) * 10 + digit_value(digits.last())
    }
}

/// The decimal notation of a number, without leading zeros.
pub open spec fn decimal_digits(n: nat) -> Seq<char>
    decreases n,
{
    if n < 10 {
        seq![digit_char(n)]
    } else {
        decimal_digits(n / 10).push(digit_char(n % 10))
    }
}

/// The amount of minor units that a currency text stands for: the number
/// written by its digits alone. A text without digits, or whose digits write
/// a number that no `u64` holds, stands for zero.
pub open spec fn minor_units(text: Seq<char>) -> nat {
    let digits = digits_of(text);
    if digits.len() == 0 || decimal_value(digits) > u64::MAX {
        0
    } else {
        decimal_value(digits)
    }
}

/// An amount of minor units written as dollars and cents: a dollar sign, the
/// whole dollars, a decimal point and two digits of cents.
pub open spec fn dollar_text(cents: nat) -> Seq<char> {
    seq!['$'] + decimal_digits(cents / 100) + seq![
        '.',
        digit_char((cents % 100) / 10),
        digit_char(cents % 10),
    ]
}

/// Returns the amount of cents that a dollar text such as `"$2,200.75"`
/// stands for. Every character that is not a digit is ignored, so a text
/// without explicit cents is read as if its whole digit run were cents. Text
/// that holds no usable number yields zero.
pub fn dollars_to_cents(dollars: &str) -> (cents: u64)
    ensures
        cents == minor_units(dollars@),
{
    let mut value: u64 = 0;
    let mut seen = false;
    let mut overflow = false;
    assert(dollars@.take(0) =~= Seq::<char>::empty());
    for c in it: dollars.chars()
        invariant
            it.seq() == dollars@,
            seen == (digits_of(dollars@.take(it.index())).len() > 0),
            overflow ==> decimal_value(digits_of(dollars@.take(it.index()))) > u64::MAX,
            !overflow ==> value == decimal_value(digits_of(dollars@.take(it.index()))),
    {
        proof {
            let next = dollars@.take(it.index() + 1);
            assert(next.drop_last() =~= dollars@.take(it.index()));
            assert(next.last() == c);
            let before = digits_of(dollars@.take(it.index()));
            if is_decimal_digit(c) {
                assert(before.push(c).drop_last() =~= before);
            }
        }
        if '0' <= c && c <= '9' {
            let d: u64 = ((c as u8) - 48) as u64;
            seen = true;
            if !overflow {
                if value > (u64::MAX - d) / 10 {
                    overflow = true;
                } else {
                    value = value * 10 + d;
                }
            }
        }
    }
    assert(dollars@.take(dollars@.len() as int) =~= dollars@);
    if overflow || !seen {
        0
    } else {
        value
    }
}

/// Appends the decimal notation of a number to a string.
fn push_decimal(out: &mut String, n: u128)
    ensures
        final(out)@ == old(out)@ + decimal_digits(n as nat),
    decreases n,
{
    if n >= 10 {
        push_decimal(out, n / 10);
    }
    let d: u8 = (n % 10) as u8;
    out.push((48 + d) as char);
    proof {
        if n < 10 {
            assert(old(out)@.push(digit_char(n as nat)) =~= old(out)@ + decimal_digits(n as nat));
        } else {
            assert((old(out)@ + decimal_digits((n / 10) as nat)).push(digit_char((n % 10) as nat))
                =~= old(out)@ + decimal_digits(n as nat));
        }
    }
}

/// Writes an amount of cents, however large, as dollars and cents.
pub fn cents_to_dollars_wide(cents: u128) -> (text: String)
    ensures
        text@ == dollar_text(cents as nat),
{
    let mut text = String::new();
    text.push('$');
    push_decimal(&mut text, cents / 100);
    text.push('.');
    let tens: u8 = ((cents % 100) / 10) as u8;
    let ones: u8 = (cents % 10) as u8;
    text.push((48 + tens) as char);
    text.push((48 + ones) as char);
    assert(text@ =~= dollar_text(cents as nat));
    text
}

/// Writes an amount of cents as dollars and cents, such as `"$2200.75"`.
pub fn cents_to_dollars(cents: u64) -> (text: String)
    ensures
        text@ == dollar_text(cents as nat),
{
    cents_to_dollars_wide(cents as u128)
}

/// The digits of two texts written one after the other are the digits of the
/// first followed by the digits of the second.
pub proof fn lemma_digits_of_concat(a: Seq<char>, b: Seq<char>)
    ensures
        digits_of(a + b) == digits_of(a) + digits_of(b),
    decreases b.len(),
{
    if b.len() == 0 {
        assert(a + b =~= a);
        assert(digits_of(a) + digits_of(b) =~= digits_of(a));
    } else {
        assert((a + b).drop_last() =~= a + b.drop_last());
        assert((a + b).last() == b.last());
        lemma_digits_of_concat(a, b.drop_last());
        if is_decimal_digit(b.last()) {
            assert((digits_of(a) + digits_of(b.drop_last())).push(b.last()) =~= digits_of(a)
                + digits_of(b));
        }
    }
}

/// The digits of a text of one character.
proof fn lemma_digits_of_one(c: char)
    ensures
        digits_of(seq![c]) == if is_decimal_digit(c) {
            seq![c]
        } else {
            Seq::<char>::empty()
        },
{
    let one = seq![c];
    assert(one.drop_last() =~= Seq::<char>::empty());
    assert(digits_of(one.drop_last()) =~= Seq::<char>::empty());
    assert(Seq::<char>::empty().push(c) =~= one);
}

/// One more digit multiplies the number written by ten and adds the digit.
proof fn lemma_decimal_value_push(digits: Seq<char>, c: char)
    ensures
        decimal_value(digits.push(c)) == decimal_value(digits) * 10 + digit_value(c),
{
    assert(digits.push(c).drop_last() =~= digits);
}

/// The decimal notation of a number holds digits only, at least one of them,
/// and writes that number.
pub proof fn lemma_decimal_digits(n: nat)
    ensures
        decimal_digits(n).len() > 0,
        digits_of(decimal_digits(n)) == decimal_digits(n),
        decimal_value(decimal_digits(n)) == n,
    decreases n,
{
    if n < 10 {
        lemma_digits_of_one(digit_char(n));
        assert(decimal_value(Seq::<char>::empty()) == 0);
        assert(Seq::<char>::empty().push(digit_char(n)) =~= seq![digit_char(n)]);
        lemma_decimal_value_push(Seq::<char>::empty(), digit_char(n));
    } else {
        lemma_decimal_digits(n / 10);
        let front = decimal_digits(n / 10);
        let last = digit_char(n % 10);
        assert(front.push(last) =~= front + seq![last]);
        lemma_digits_of_concat(front, seq![last]);
        lemma_digits_of_one(last);
        lemma_decimal_value_push(front, last);
    }
}

/// Reading back an amount that was written as dollars and cents gives the
/// amount itself.
pub proof fn lemma_written_amount_reads_back(cents: u64)
    ensures
        minor_units(dollar_text(cents as nat)) == cents,
{
    let n = cents as nat;
    let whole = decimal_digits(n / 100);
    let tens = digit_char((n % 100) / 10);
    let ones = digit_char(n % 10);
    lemma_decimal_digits(n / 100);
    lemma_digits_of_one('$');
    lemma_digits_of_one('.');
    lemma_digits_of_one(tens);
    lemma_digits_of_one(ones);
    let written = seq!['$'] + whole + seq!['.'] + seq![tens] + seq![ones];
    assert(dollar_text(n) =~= written);
    lemma_digits_of_concat(seq!['$'] + whole + seq!['.'] + seq![tens], seq![ones]);
    lemma_digits_of_concat(seq!['$'] + whole + seq!['.'], seq![tens]);
    lemma_digits_of_concat(seq!['$'] + whole, seq!['.']);
    lemma_digits_of_concat(seq!['$'], whole);
    assert(digits_of(written) =~= whole.push(tens).push(ones));
    lemma_decimal_value_push(whole, tens);
    lemma_decimal_value_push(whole.push(tens), ones);
    assert(decimal_value(digits_of(written)) == (n / 100 * 10 + (n % 100) / 10) * 10 + n % 10);
}

} // verus!
