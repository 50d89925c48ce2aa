//! Base-10 text of integers.

use vstd::prelude::*;

verus! {

/// The character that writes the digit `d`.
pub open spec fn digit_char(d: nat) -> char {
    if d == 0 {
        '0'
    } else if d == 1 {
        '1'
    } else if d == 2 {
        '2'
    } else if d == 3 {
        '3'
    } else if d == 4 {
        '4'
    } else if d == 5 {
        '5'
    } else if d == 6 {
        '6'
    } else if d == 7 {
        '7'
    } else if d == 8 {
        '8'
    } else {
        '9'
    }
}

/// The digits of `n` in base 10, most significant first, without leading
/// zeros; `0` is written "0".
pub open spec fn decimal_nat(n: nat) -> Seq<char>
    decreases n,
{
    if n < 10 {
        seq![digit_char(n)]
    } else {
        decimal_nat(n / 10).push(digit_char(n % 10))
    }
}

/// The base-10 text of `i`: a minus sign for a negative number, then the
/// digits of its magnitude.
pub open spec fn decimal_int(i: int) -> Seq<char> {
    if i < 0 {
        seq!['-'] + decimal_nat((-i) as nat)
    } else {
        decimal_nat(i as nat)
    }
}

/// `text`, with zeros put in front of it until it is `width` long.
pub open spec fn zero_padded(text: Seq<char>, width: nat) -> Seq<char> {
    if text.len() < width {
        Seq::new((width - text.len()) as nat, |i: int| '0') + text
    } else {
        text
    }
}

/// The text that a run of digits stands for when the first of them is the
/// least significant.
pub open spec fn low_digits(digits: Seq<u8>) -> Seq<char>
    decreases digits.len(),
{
    if digits.len() == 0 {
        Seq::empty()
    } else {
        seq![digit_char(digits.last() as nat)] + low_digits(digits.drop_last())
    }
}

/// A number is written with one digit if it is under ten, and with two or
/// more if it is not.
pub proof fn lemma_decimal_nat_len(n: nat)
    ensures
        decimal_nat(n).len() >= 1,
        n < 10 <==> decimal_nat(n).len() == 1,
    decreases n,
{
    if n >= 10 {
        lemma_decimal_nat_len(n / 10);
    }
}

/// A number under a hundred, padded to two places, is its tens digit and
/// its units digit.
pub proof fn lemma_two_places(n: nat)
    requires
        n < 100,
    ensures
        zero_padded(decimal_nat(n), 2) == seq![digit_char(n / 10), digit_char(n % 10)],
{
    if n < 10 {
        assert(zero_padded(decimal_nat(n), 2) =~= seq![digit_char(0), digit_char(n)]);
    } else {
        assert(decimal_nat(n / 10) == seq![digit_char(n / 10)]);
        assert(decimal_nat(n) =~= seq![digit_char(n / 10), digit_char(n % 10)]);
    }
}

/// The one-character text of a digit.
fn digit_str(d: u8) -> (text: &'static str)
    requires
        d < 10,
    ensures
        text@ == seq![digit_char(d as nat)],
{
    proof {
        reveal_strlit("0");
        reveal_strlit("1");
        reveal_strlit("2");
        reveal_strlit("3");
        reveal_strlit("4");
        reveal_strlit("5");
        reveal_strlit("6");
        reveal_strlit("7");
        reveal_strlit("8");
        reveal_strlit("9");
    }
    let text = if d == 0 {
        "0"
    } else if d == 1 {
        "1"
    } else if d == 2 {
        "2"
    } else if d == 3 {
        "3"
    } else if d == 4 {
        "4"
    } else if d == 5 {
        "5"
    } else if d == 6 {
        "6"
    } else if d == 7 {
        "7"
    } else if d == 8 {
        "8"
    } else {
        "9"
    };
    assert(text@ =~= seq![digit_char(d as nat)]);
    text
}

/// The base-10 text of an unsigned number.
pub fn u64_to_decimal(n: u64) -> (text: String)
    ensures
        text@ == decimal_nat(n as nat),
{
    // Digits are found from the least significant end, so they are kept
    // aside and written out backwards.
    let mut digits: Vec<u8> = Vec::new();
    let mut rest: u64 = n;
    while rest >= 10
        invariant
            forall|k: int| 0 <= k < digits.len() ==> digits[k] < 10,
            decimal_nat(n as nat) == decimal_nat(rest as nat) + low_digits(digits@),
        decreases rest,
    {
        let d: u8 = (rest % 10) as u8;
        proof {
            let head = decimal_nat((rest / 10) as nat);
            let tail = low_digits(digits@);
            assert(digits@.push(d).drop_last() =~= digits@);
            assert(low_digits(digits@.push(d)) == seq![digit_char(d as nat)] + tail);
            assert(decimal_nat(rest as nat) == head.push(digit_char(d as nat)));
            assert(head.push(digit_char(d as nat)) + tail =~= head + (seq![digit_char(d as nat)]
                + tail));
        }
        digits.push(d);
        rest = rest / 10;
    }
    let mut text = String::from_str(digit_str(rest as u8));
    let mut i: usize = digits.len();
    proof {
        assert(text@ =~= decimal_nat(rest as nat));
        assert(digits@.take(i as int) =~= digits@);
    }
    while i > 0
        invariant
            i <= digits.len(),
            forall|k: int| 0 <= k < digits.len() ==> digits[k] < 10,
            text@ + low_digits(digits@.take(i as int)) == decimal_nat(n as nat),
        decreases i,
    {
        i = i - 1;
        proof {
            let before = digits@.take(i + 1);
            let next = seq![digit_char(digits[i as int] as nat)];
            assert(before.drop_last() =~= digits@.take(i as int));
            assert(before.last() == digits[i as int]);
            assert((text@ + next) + low_digits(digits@.take(i as int)) =~= text@ + low_digits(
                before,
            ));
        }
        text.append(digit_str(digits[i]));
    }
    proof {
        assert(digits@.take(0) =~= Seq::<u8>::empty());
        assert(text@ + Seq::<char>::empty() =~= text@);
    }
    text
}

/// The base-10 text of a signed number.
pub fn i64_to_decimal(i: i64) -> (text: String)
    ensures
        text@ == decimal_int(i as int),
{
    if i >= 0 {
        u64_to_decimal(i as u64)
    } else {
        let magnitude: u64 = if i == i64::MIN {
            0x8000_0000_0000_0000u64
        } else {
            (-i) as u64
        };
        let mut text = String::from_str("-");
        let digits = u64_to_decimal(magnitude);
        text.append(digits.as_str());
        proof {
            reveal_strlit("-");
            assert("-"@ =~= seq!['-']);
        }
        text
    }
}

/// The base-10 text of `n`, with a zero in front of a single digit.
pub fn two_digits(n: u64) -> (text: String)
    ensures
        text@ == zero_padded(decimal_nat(n as nat), 2),
{
    if n < 10 {
        let mut text = String::from_str("0");
        text.append(digit_str(n as u8));
        proof {
            reveal_strlit("0");
            assert(text@ =~= zero_padded(decimal_nat(n as nat), 2));
        }
        text
    } else {
        proof {
            lemma_decimal_nat_len(n as nat);
        }
        u64_to_decimal(n)
    }
}

} // verus!
