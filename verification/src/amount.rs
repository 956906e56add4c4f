//! Amounts as fixed-point numbers with four decimal places. An amount is a
//! count of ten-thousandths: `12.5` is `125_000`. This module reads an amount
//! from its decimal text and writes one with exactly four decimals.

use vstd::prelude::*;
use vstd::string::StrSliceExecFns;
use vstd::string::StringExecFns;

verus! {

/// The character of a decimal digit.
pub open spec fn digit_char(digit: nat) -> char {
    if digit == 0 {
        '0'
    } else if digit == 1 {
        '1'
    } else if digit == 2 {
        '2'
    } else if digit == 3 {
        '3'
    } else if digit == 4 {
        '4'
    } else if digit == 5 {
        '5'
    } else if digit == 6 {
        '6'
    } else if digit == 7 {
        '7'
    } else if digit == 8 {
        '8'
    } else {
        '9'
    }
}

/// The decimal digit that a character stands for, if it stands for one.
pub open spec fn digit_of(c: char) -> Option<nat> {
    if c == '0' {
        Some(0)
    } else if c == '1' {
        Some(1)
    } else if c == '2' {
        Some(2)
    } else if c == '3' {
        Some(3)
    } else if c == '4' {
        Some(4)
    } else if c == '5' {
        Some(5)
    } else if c == '6' {
        Some(6)
    } else if c == '7' {
        Some(7)
    } else if c == '8' {
        Some(8)
    } else if c == '9' {
        Some(9)
    } else {
        None
    }
}

/// Ten to the power `exponent`.
pub open spec fn pow10(exponent: nat) -> nat
    decreases exponent,
{
    if exponent == 0 {
        1
    } else {
        10 * pow10((exponent - 1) as nat)
    }
}

/// The digits of `n` in base ten, without leading zeros.
pub open spec fn decimal(n: nat) -> Seq<char>
    decreases n,
{
    if n < 10 {
        seq![digit_char(n)]
    } else {
        decimal(n / 10).push(digit_char(n % 10))
    }
}

/// The four digits of `n`, which is below ten thousand, with leading zeros.
pub open spec fn four_digits(n: nat) -> Seq<char> {
    seq![
        digit_char(n / 1000 % 10),
        digit_char(n / 100 % 10),
        digit_char(n / 10 % 10),
        digit_char(n % 10),
    ]
}

/// The text of an amount: its whole part, a point and four decimals.
pub open spec fn amount_text(units: nat) -> Seq<char> {
    decimal(units / 10000) + seq!['.'] + four_digits(units % 10000)
}

/// Whether every character of `text` is a decimal digit.
pub open spec fn is_digits(text: Seq<char>) -> bool {
    forall|i: int| 0 <= i < text.len() ==> digit_of(#[trigger] text[i]) is Some
}

/// The number that a run of decimal digits denotes; zero for the empty run.
pub open spec fn digits_value(text: Seq<char>) -> nat
    decreases text.len(),
{
    if text.len() == 0 {
        0
    } else {
        10 * digits_value(text.drop_last()) + digit_of(text.last()).unwrap()
    }
}

/// The amount written as `whole`, a point and `fraction`: both are runs of
/// digits, not both empty, with at most four decimals, and the amount fits
/// 64 bits. Missing decimals count as zeros.
pub open spec fn amount_of(whole: Seq<char>, fraction: Seq<char>) -> Option<u64> {
    let units = digits_value(whole) * 10000 + digits_value(fraction) * pow10(
        (4 - fraction.len()) as nat,
    );
    if is_digits(whole) && is_digits(fraction) && whole.len() + fraction.len() >= 1
        && fraction.len() <= 4 && units <= u64::MAX {
        Some(units as u64)
    } else {
        None
    }
}

/// The amount that `text` denotes, if it denotes one. A text without a point
/// is a whole part; a text with a point is split there. A text with two
/// points denotes nothing, wherever it is split.
pub open spec fn amount_value(text: Seq<char>) -> Option<u64> {
    if text.contains('.') {
        let point = text.index_of('.');
        amount_of(text.subrange(0, point), text.subrange(point + 1, text.len() as int))
    } else {
        amount_of(text, Seq::empty())
    }
}

/// A text with a point has the same value at whichever point it is split: a
/// text with one point can be split there only, and a text with more denotes
/// nothing.
pub proof fn lemma_split_at_any_point(text: Seq<char>, point: int)
    requires
        0 <= point < text.len(),
        text[point] == '.',
    ensures
        amount_value(text) == amount_of(
            text.subrange(0, point),
            text.subrange(point + 1, text.len() as int),
        ),
{
    let chosen = text.index_of('.');
    if chosen < point {
        assert(text.subrange(chosen + 1, text.len() as int)[point - chosen - 1] == text[point]);
        assert(text.subrange(0, point)[chosen] == text[chosen]);
    } else if chosen > point {
        assert(text.subrange(0, chosen)[point] == text[point]);
        assert(text.subrange(point + 1, text.len() as int)[chosen - point - 1] == text[chosen]);
    }
}

/// A run of `n` digits denotes a number below ten to the `n`.
proof fn lemma_digits_value_below(text: Seq<char>)
    requires
        is_digits(text),
    ensures
        digits_value(text) < pow10(text.len()),
    decreases text.len(),
{
    if text.len() > 0 {
        assert(digit_of(text[text.len() - 1]) is Some);
        lemma_digits_value_below(text.drop_last());
    }
}

/// The digit of `c`, if it is one.
fn digit_value(c: char) -> (digit: Option<u8>)
    ensures
        match digit {
            Some(d) => digit_of(c) == Some(d as nat),
            None => digit_of(c) is None,
        },
{
    match c {
        '0' => Some(0),
        '1' => Some(1),
        '2' => Some(2),
        '3' => Some(3),
        '4' => Some(4),
        '5' => Some(5),
        '6' => Some(6),
        '7' => Some(7),
        '8' => Some(8),
        '9' => Some(9),
        _ => None,
    }
}

/// The value that [`scan_digits`] stops counting at: one more than fits
/// 64 bits.
spec fn scan_cap() -> nat {
    0x1_0000_0000_0000_0000
}

/// Reads the run of digits of `text` that starts at `start`. Returns where
/// the run ends and what it denotes, or [`scan_cap`] if that is less.
fn scan_digits(text: &str, start: usize) -> (run: (usize, u128))
    requires
        start <= text@.len(),
    ensures
        start <= run.0 <= text@.len(),
        is_digits(text@.subrange(start as int, run.0 as int)),
        run.0 < text@.len() ==> digit_of(text@[run.0 as int]) is None,
        run.1 == if digits_value(text@.subrange(start as int, run.0 as int)) < scan_cap() {
            digits_value(text@.subrange(start as int, run.0 as int))
        } else {
            scan_cap()
        },
{
    let len = text.unicode_len();
    let mut end: usize = start;
    let mut value: u128 = 0;
    let mut more = true;
    while more && end < len
        invariant
            len == text@.len(),
            start <= end <= len,
            is_digits(text@.subrange(start as int, end as int)),
            !more ==> end < len && digit_of(text@[end as int]) is None,
            value == if digits_value(text@.subrange(start as int, end as int)) < scan_cap() {
                digits_value(text@.subrange(start as int, end as int))
            } else {
                scan_cap()
            },
        decreases (len - end) + (if more { 1nat } else { 0nat }),
    {
        match digit_value(text.get_char(end)) {
            Some(digit) => {
                proof {
                    let longer = text@.subrange(start as int, end + 1);
                    assert(longer.drop_last() == text@.subrange(start as int, end as int));
                    assert(longer.last() == text@[end as int]);
                }
                value = if value >= 0x1_0000_0000_0000_0000 {
                    0x1_0000_0000_0000_0000
                } else {
                    let next: u128 = value * 10 + digit as u128;
                    if next >= 0x1_0000_0000_0000_0000 {
                        0x1_0000_0000_0000_0000
                    } else {
                        next
                    }
                };
                end = end + 1;
            },
            None => {
                more = false;
            },
        }
    }
    (end, value)
}

/// Reads an amount from its decimal text: digits, then optionally a point
/// and up to four more digits, with at least one digit in all. Returns
/// `None` for any other text, and for an amount that does not fit 64 bits.
pub fn parse_amount(text: &str) -> (units: Option<u64>)
    ensures
        units == amount_value(text@),
{
    let len = text.unicode_len();
    let (whole_end, whole) = scan_digits(text, 0);
    let ghost point = text@.index_of('.');
    if whole_end == len {
        proof {
            assert(text@.subrange(0, len as int) == text@);
            assert(!text@.contains('.')) by {
                if text@.contains('.') {
                    assert(digit_of(text@[point]) is Some);
                }
            }
            assert(digits_value(Seq::<char>::empty()) == 0);
            assert(pow10(4) == 10000) by {
                reveal_with_fuel(pow10, 5);
            }
        }
        if whole_end == 0 || whole * 10000 > 0xFFFF_FFFF_FFFF_FFFF {
            return None;
        }
        return Some((whole * 10000) as u64);
    }
    if text.get_char(whole_end) != '.' {
        proof {
            if text@.contains('.') {
                if point < whole_end {
                    assert(text@.subrange(0, whole_end as int)[point] == text@[point]);
                } else {
                    assert(text@.subrange(0, point)[whole_end as int] == text@[whole_end as int]);
                }
            } else {
                assert(digit_of(text@[whole_end as int]) is None);
            }
        }
        return None;
    }
    let (fraction_end, fraction) = scan_digits(text, whole_end + 1);
    proof {
        lemma_split_at_any_point(text@, whole_end as int);
    }
    if fraction_end != len {
        proof {
            assert(text@.subrange(whole_end + 1, len as int)[fraction_end - whole_end - 1]
                == text@[fraction_end as int]);
        }
        return None;
    }
    let decimals = len - whole_end - 1;
    if decimals > 4 || whole_end + decimals == 0 {
        return None;
    }
    let scale: u128 = if decimals == 0 {
        10000
    } else if decimals == 1 {
        1000
    } else if decimals == 2 {
        100
    } else if decimals == 3 {
        10
    } else {
        1
    };
    proof {
        let fraction_text = text@.subrange(whole_end + 1, len as int);
        lemma_digits_value_below(fraction_text);
        reveal_with_fuel(pow10, 5);
        assert(scale == pow10((4 - fraction_text.len()) as nat));
        assert(pow10(fraction_text.len()) <= 10000);
        assert(fraction == digits_value(fraction_text));
        assert(fraction * scale <= 10000 * 10000) by (nonlinear_arith)
            requires
                fraction < 10000,
                scale <= 10000,
        ;
    }
    let units: u128 = whole * 10000 + fraction * scale;
    if units > 0xFFFF_FFFF_FFFF_FFFF {
        return None;
    }
    Some(units as u64)
}

/// The text of one decimal digit.
fn digit_str(digit: u8) -> (text: &'static str)
    requires
        digit < 10,
    ensures
        text@ == seq![digit_char(digit as nat)],
{
    proof {
        reveal_strlit("0");
        reveal_strlit("1");
        reveal_strlit("2");
        reveal_strlit("3");
        reveal_strlit("4");
        reveal_strlit("5");
        reveal_strlit("6");
        reveal_strlit("7");
        reveal_strlit("8");
        reveal_strlit("9");
    }
    let text = match digit {
        0 => "0",
        1 => "1",
        2 => "2",
        3 => "3",
        4 => "4",
        5 => "5",
        6 => "6",
        7 => "7",
        8 => "8",
        _ => "9",
    };
    assert(text@ =~= seq![digit_char(digit as nat)]);
    text
}

/// Appends the digits of `n` to `text`.
fn push_decimal(text: &mut String, n: u128)
    ensures
        final(text)@ == old(text)@ + decimal(n as nat),
    decreases n,
{
    if n >= 10 {
        push_decimal(text, n / 10);
    }
    text.append(digit_str((n % 10) as u8));
}

/// Writes an amount with its whole part and exactly four decimals:
/// `125_000` as `12.5000`.
pub fn format_amount(units: u128) -> (text: String)
    ensures
        text@ == amount_text(units as nat),
{
    let mut text = String::new();
    push_decimal(&mut text, units / 10000);
    proof {
        reveal_strlit(".");
    }
    text.append(".");
    let decimals = units % 10000;
    text.append(digit_str((decimals / 1000 % 10) as u8));
    text.append(digit_str((decimals / 100 % 10) as u8));
    text.append(digit_str((decimals / 10 % 10) as u8));
    text.append(digit_str((decimals % 10) as u8));
    assert(text@ =~= amount_text(units as nat));
    text
}

/// The digits of a number denote that number.
proof fn lemma_decimal_denotes(n: nat)
    ensures
        is_digits(decimal(n)),
        digits_value(decimal(n)) == n,
        decimal(n).len() >= 1,
    decreases n,
{
    if n < 10 {
        assert(decimal(n).drop_last() == Seq::<char>::empty());
        assert(digits_value(decimal(n).drop_last()) == 0);
    } else {
        lemma_decimal_denotes(n / 10);
        assert(decimal(n).drop_last() == decimal(n / 10));
    }
}

/// The four digits of a number below ten thousand denote that number.
proof fn lemma_four_digits_denote(n: nat)
    requires
        n < 10000,
    ensures
        is_digits(four_digits(n)),
        digits_value(four_digits(n)) == n,
{
    let text = four_digits(n);
    let three = text.drop_last();
    let two = three.drop_last();
    let one = two.drop_last();
    assert(one.drop_last() == Seq::<char>::empty());
    assert(digits_value(one.drop_last()) == 0);
    assert(digits_value(one) == n / 1000 % 10);
    assert(digits_value(two) == 10 * digits_value(one) + n / 100 % 10);
    assert(digits_value(three) == 10 * digits_value(two) + n / 10 % 10);
    assert(digits_value(text) == 10 * digits_value(three) + n % 10);
}

/// What [`format_amount`] writes of an amount that fits 64 bits,
/// [`parse_amount`] reads back as that amount.
pub proof fn law_written_amount_reads_back(units: u64)
    ensures
        amount_value(amount_text(units as nat)) == Some(units),
{
    let whole = decimal(units as nat / 10000);
    let fraction = four_digits(units as nat % 10000);
    let text = amount_text(units as nat);
    lemma_decimal_denotes(units as nat / 10000);
    lemma_four_digits_denote(units as nat % 10000);
    assert(text[whole.len() as int] == '.');
    let point = text.index_of('.');
    assert(point == whole.len()) by {
        if point < whole.len() {
            assert(text[point] == whole[point]);
        } else if point > whole.len() {
            assert(text[point] == fraction[point - whole.len() - 1]);
        }
    }
    assert(text.subrange(0, point) == whole);
    assert(text.subrange(point + 1, text.len() as int) == fraction);
    let decimals = digits_value(fraction);
    let scale = pow10((4 - fraction.len()) as nat);
    assert(scale == 1);
    assert(decimals * scale == decimals) by (nonlinear_arith)
        requires
            scale == 1,
    ;
}

} // verus!
