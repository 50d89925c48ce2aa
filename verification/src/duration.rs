//! A length of time written as a clock: hours, minutes, seconds and tenths
//! of a second, two places each.

use crate::decimal::{decimal_nat, digit_char, lemma_two_places, two_digits, zero_padded};
use vstd::prelude::*;

verus! {

/// The hours field: whole hours, counted round the 24-hour clock.
pub open spec fn clock_hours(milliseconds: nat) -> nat {
    (milliseconds / 3_600_000) % 24
}

/// The minutes field: whole minutes within the hour.
pub open spec fn clock_minutes(milliseconds: nat) -> nat {
    (milliseconds / 60_000) % 60
}

/// The seconds field: whole seconds within the minute.
pub open spec fn clock_seconds(milliseconds: nat) -> nat {
    (milliseconds / 1000) % 60
}

/// The last field: the milliseconds within the second, in whole hundreds.
/// It runs from 0 to 9, a count of tenths and not of hundredths.
pub open spec fn clock_hundreds(milliseconds: nat) -> nat {
    (milliseconds % 1000) / 100
}

/// One field of the clock: the number in base 10, at least two places wide.
pub open spec fn clock_field(n: nat) -> Seq<char> {
    zero_padded(decimal_nat(n), 2)
}

/// The clock text of a length of time: the four fields, colons between.
pub open spec fn clock_text(milliseconds: nat) -> Seq<char> {
    clock_field(clock_hours(milliseconds)) + seq![':'] + clock_field(
        clock_minutes(milliseconds),
    ) + seq![':'] + clock_field(clock_seconds(milliseconds)) + seq![':'] + clock_field(
        clock_hundreds(milliseconds),
    )
}

/// Writes a length of time, given in whole milliseconds, as `HH:MM:SS:CS`.
pub fn milliseconds_to_time(duration: u64) -> (text: String)
    ensures
        text@ == clock_text(duration as nat),
{
    let hundreds: u64 = (duration % 1000) / 100;
    let seconds: u64 = (duration / 1000) % 60;
    let minutes: u64 = (duration / 60_000) % 60;
    let hours: u64 = (duration / 3_600_000) % 24;

    let mut text = two_digits(hours);
    text.append(":");
    text.append(two_digits(minutes).as_str());
    text.append(":");
    text.append(two_digits(seconds).as_str());
    text.append(":");
    text.append(two_digits(hundreds).as_str());
    proof {
        reveal_strlit(":");
        assert(":"@ =~= seq![':']);
    }
    text
}

/// The clock text is always eleven characters: four fields of two digits
/// each, every field within its range, and a colon after each of the first
/// three.
pub proof fn lemma_clock_text_shape(milliseconds: nat)
    ensures
        clock_hours(milliseconds) < 24,
        clock_minutes(milliseconds) < 60,
        clock_seconds(milliseconds) < 60,
        clock_hundreds(milliseconds) < 10,
        clock_text(milliseconds) == seq![
            digit_char(clock_hours(milliseconds) / 10),
            digit_char(clock_hours(milliseconds) % 10),
            ':',
            digit_char(clock_minutes(milliseconds) / 10),
            digit_char(clock_minutes(milliseconds) % 10),
            ':',
            digit_char(clock_seconds(milliseconds) / 10),
            digit_char(clock_seconds(milliseconds) % 10),
            ':',
            '0',
            digit_char(clock_hundreds(milliseconds)),
        ],
{
    lemma_two_places(clock_hours(milliseconds));
    lemma_two_places(clock_minutes(milliseconds));
    lemma_two_places(clock_seconds(milliseconds));
    lemma_two_places(clock_hundreds(milliseconds));
    assert(clock_text(milliseconds) =~= seq![
        digit_char(clock_hours(milliseconds) / 10),
        digit_char(clock_hours(milliseconds) % 10),
        ':',
        digit_char(clock_minutes(milliseconds) / 10),
        digit_char(clock_minutes(milliseconds) % 10),
        ':',
        digit_char(clock_seconds(milliseconds) / 10),
        digit_char(clock_seconds(milliseconds) % 10),
        ':',
        '0',
        digit_char(clock_hundreds(milliseconds)),
    ]);
}

} // verus!
