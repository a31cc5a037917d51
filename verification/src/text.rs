//! Text comparison and decimal numerals.

use vstd::arithmetic::div_mod::lemma_div_denominator;
use vstd::arithmetic::power::{lemma_pow1, lemma_pow_positive, pow};
use vstd::prelude::*;
use vstd::string::*;
use vstd::utf8::*;

verus! {

/// The character of a decimal digit.
pub open spec fn digit_char(digit: nat) -> char {
    (48 + digit) as char
}

/// The decimal numeral of a number, without leading zeros.
pub open spec fn decimal(n: nat) -> Seq<char>
    decreases n,
{
    if n < 10 {
        seq![digit_char(n)]
    } else {
        decimal(n / 10).push(digit_char(n % 10))
    }
}

/// `count` times the character `0`.
pub open spec fn zeros(count: nat) -> Seq<char> {
    Seq::new(count, |i: int| '0')
}

/// The decimal numeral of a number, filled up with zeros on the left to at least `width` digits.
pub open spec fn padded_decimal(n: nat, width: nat) -> Seq<char> {
    let digits = decimal(n);
    if digits.len() < width {
        zeros((width - digits.len()) as nat) + digits
    } else {
        digits
    }
}

/// The number that a sequence of decimal digits denotes.
pub open spec fn numeral_value(digits: Seq<char>) -> int
    decreases digits.len(),
{
    if digits.len() == 0 {
        0
    } else {
        numeral_value(digits.drop_last()) * 10 + (digits.last() as int - 48)
    }
}

/// Whether every character of a text is a decimal digit.
pub open spec fn all_digits(text: Seq<char>) -> bool {
    forall|i: int| 0 <= i < text.len() ==> '0' <= #[trigger] text[i] <= '9'
}

/// A numeral is not empty, consists of digits and denotes the number it was made from.
pub proof fn lemma_decimal(n: nat)
    ensures
        decimal(n).len() > 0,
        all_digits(decimal(n)),
        numeral_value(decimal(n)) == n,
    decreases n,
{
    reveal_with_fuel(numeral_value, 2);
    if n >= 10 {
        lemma_decimal(n / 10);
        assert(decimal(n).drop_last() =~= decimal(n / 10));
    } else {
        assert(decimal(n).drop_last() =~= Seq::<char>::empty());
    }
}

proof fn lemma_leading_zeros(count: nat, digits: Seq<char>)
    ensures
        numeral_value(zeros(count) + digits) == numeral_value(digits),
    decreases count + digits.len(),
{
    let whole = zeros(count) + digits;
    if digits.len() > 0 {
        assert(whole.drop_last() =~= zeros(count) + digits.drop_last());
        lemma_leading_zeros(count, digits.drop_last());
    } else if count > 0 {
        assert(whole.drop_last() =~= zeros((count - 1) as nat) + digits);
        lemma_leading_zeros((count - 1) as nat, digits);
        assert(whole.last() == '0');
    } else {
        assert(whole =~= digits);
    }
}

/// A padded numeral has at least the given width, consists of digits and denotes the number it
/// was made from.
pub proof fn lemma_padded_decimal(n: nat, width: nat)
    ensures
        padded_decimal(n, width).len() >= width,
        padded_decimal(n, width).len() > 0,
        all_digits(padded_decimal(n, width)),
        numeral_value(padded_decimal(n, width)) == n,
{
    lemma_decimal(n);
    let digits = decimal(n);
    if digits.len() < width {
        lemma_leading_zeros((width - digits.len()) as nat, digits);
    }
}

/// Whether two texts hold the same characters.
pub fn same_text(left: &str, right: &str) -> (same: bool)
    ensures
        same == (left@ == right@),
{
    let left_bytes = left.as_bytes();
    let right_bytes = right.as_bytes();
    proof {
        encode_utf8_decode_utf8(left@);
        encode_utf8_decode_utf8(right@);
    }
    if left_bytes.len() != right_bytes.len() {
        return false;
    }
    let mut i: usize = 0;
    while i < left_bytes.len()
        invariant
            left_bytes@ == left.spec_bytes(),
            right_bytes@ == right.spec_bytes(),
            left_bytes@.len() == right_bytes@.len(),
            i <= left_bytes@.len(),
            forall|j: int| 0 <= j < i ==> left_bytes@[j] == right_bytes@[j],
        decreases left_bytes.len() - i,
    {
        if left_bytes[i] != right_bytes[i] {
            return false;
        }
        i = i + 1;
    }
    assert(left_bytes@ =~= right_bytes@);
    true
}

/// The numeral of a single digit.
fn digit_text(digit: u64) -> (text: &'static str)
    requires
        digit < 10,
    ensures
        text@ == seq![digit_char(digit as nat)],
{
    proof {
        reveal_strlit("0");
        reveal_strlit("1");
        reveal_strlit("2");
        reveal_strlit("3");
        reveal_strlit("4");
        reveal_strlit("5");
        reveal_strlit("6");
        reveal_strlit("7");
        reveal_strlit("8");
        reveal_strlit("9");
    }
    if digit == 0 {
        "0"
    } else if digit == 1 {
        "1"
    } else if digit == 2 {
        "2"
    } else if digit == 3 {
        "3"
    } else if digit == 4 {
        "4"
    } else if digit == 5 {
        "5"
    } else if digit == 6 {
        "6"
    } else if digit == 7 {
        "7"
    } else if digit == 8 {
        "8"
    } else {
        "9"
    }
}

/// Writes a number in decimal.
pub fn decimal_text(n: u64) -> (text: String)
    ensures
        text@ == decimal(n as nat),
    decreases n,
{
    if n < 10 {
        digit_text(n).to_owned()
    } else {
        let mut text = decimal_text(n / 10);
        text.append(digit_text(n % 10));
        text
    }
}

/// Writes a number in decimal with at least `width` digits.
pub fn padded_decimal_text(n: u64, width: usize) -> (text: String)
    ensures
        text@ == padded_decimal(n as nat, width as nat),
{
    let digits = decimal_text(n);
    let length = digits.as_str().unicode_len();
    let mut text = String::new();
    let mut filled = length;
    proof {
        reveal_strlit("0");
    }
    while filled < width
        invariant
            length <= filled,
            length < width ==> filled <= width,
            length >= width ==> filled == length,
            text@ == zeros((filled - length) as nat),
            "0"@ == seq!['0'],
        decreases width - filled,
    {
        text.append("0");
        filled = filled + 1;
        assert(text@ =~= zeros((filled - length) as nat));
    }
    text.append(digits.as_str());
    assert(zeros(0) + digits@ =~= digits@);
    text
}

/// Joins two texts.
pub fn join(left: &str, right: &str) -> (text: String)
    ensures
        text@ == left@ + right@,
{
    let mut text = left.to_owned();
    text.append(right);
    text
}

/// A digit of a numeral, counted from the right, is the digit of that power of ten in the number.
pub proof fn law_decimal_digits(n: nat, place: nat)
    requires
        place < decimal(n).len(),
    ensures
        decimal(n)[decimal(n).len() - 1 - place] as int == '0' as int + (n as int / pow(10, place))
            % 10,
    decreases place,
{
    reveal(pow);
    if place > 0 {
        assert(n >= 10);
        let front = decimal(n / 10);
        let below = (place - 1) as nat;
        law_decimal_digits(n / 10, below);
        assert(decimal(n)[decimal(n).len() - 1 - place] == front[front.len() - 1 - below]);
        lemma_pow_positive(10, below);
        lemma_div_denominator(n as int, 10, pow(10, below));
        assert(pow(10, place) == 10 * pow(10, below));
    }
}

/// A numeral has as many digits as the number needs: one for zero, and no leading zeros.
pub proof fn law_decimal_length(n: nat)
    ensures
        n < pow(10, decimal(n).len()),
        decimal(n).len() > 1 ==> pow(10, (decimal(n).len() - 1) as nat) <= n,
    decreases n,
{
    reveal(pow);
    lemma_pow1(10);
    if n >= 10 {
        let front = decimal(n / 10);
        lemma_decimal(n / 10);
        law_decimal_length(n / 10);
        assert(pow(10, decimal(n).len()) == 10 * pow(10, front.len()));
        assert(pow(10, front.len()) == 10 * pow(10, (front.len() - 1) as nat));
    }
}

/// A padded numeral is the numeral with nothing but zeros before it, and no more of them than the
/// width asks for.
pub proof fn law_padding_is_zeros(n: nat, width: nat)
    ensures
        padded_decimal(n, width).len() == if decimal(n).len() < width {
            width
        } else {
            decimal(n).len()
        },
        padded_decimal(n, width).skip(padded_decimal(n, width).len() - decimal(n).len()) == decimal(
            n,
        ),
        forall|i: int|
            0 <= i < padded_decimal(n, width).len() - decimal(n).len() ==> #[trigger] padded_decimal(
                n,
                width,
            )[i] == '0',
{
    assert(padded_decimal(n, width).skip(padded_decimal(n, width).len() - decimal(n).len())
        =~= decimal(n));
}

} // verus!
