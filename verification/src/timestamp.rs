//! The wall-clock time that the index page shows, as `YYYY-MM-DD HH:MM:SS`.

use crate::decimal::{
    decimal_value, is_digit, padded_of, padded_is_digits, padded_reads_back, pow10, push_padded,
};
use vstd::prelude::*;
use vstd::string::StringExecFns;

verus! {

/// A wall-clock time to the second, by its calendar fields.
#[derive(Clone, Copy, Debug, PartialEq, Eq, Structural)]
pub struct Timestamp {
    pub year: u16,
    pub month: u8,
    pub day: u8,
    pub hour: u8,
    pub minute: u8,
    pub second: u8,
}

/// Whether the six numbers are calendar fields that fill their places: a
/// year of at most four digits, a month, a day of a month, an hour of the
/// day, a minute and a second.
pub open spec fn fields_in_range(
    year: int,
    month: int,
    day: int,
    hour: int,
    minute: int,
    second: int,
) -> bool {
    &&& 0 <= year <= 9999
    &&& 1 <= month <= 12
    &&& 1 <= day <= 31
    &&& 0 <= hour <= 23
    &&& 0 <= minute <= 59
    &&& 0 <= second <= 59
}

/// The text of a time: the year in four digits, then month, day, hour,
/// minute and second in two digits each, parted by `-`, `-`, a space, `:`
/// and `:`.
pub open spec fn timestamp_text_of(t: Timestamp) -> Seq<char> {
    padded_of(t.year as nat, 4) + seq!['-'] + padded_of(t.month as nat, 2) + seq!['-'] + padded_of(
        t.day as nat,
        2,
    ) + seq![' '] + padded_of(t.hour as nat, 2) + seq![':'] + padded_of(t.minute as nat, 2)
        + seq![':'] + padded_of(t.second as nat, 2)
}

/// Whether `text` has the shape `dddd-dd-dd dd:dd:dd`, each `d` a digit.
pub open spec fn has_timestamp_shape(text: Seq<char>) -> bool {
    &&& text.len() == 19
    &&& text[4] == '-'
    &&& text[7] == '-'
    &&& text[10] == ' '
    &&& text[13] == ':'
    &&& text[16] == ':'
    &&& forall|i: int|
        0 <= i < 19 && i != 4 && i != 7 && i != 10 && i != 13 && i != 16 ==> is_digit(
            #[trigger] text[i],
        )
}

/// The number in `low..=high` that is nearest to `value`.
pub open spec fn nearest_in(value: int, low: int, high: int) -> int {
    if value < low {
        low
    } else if value > high {
        high
    } else {
        value
    }
}

/// The time whose fields are the nearest in range to the six numbers: the
/// numbers themselves where they are in range.
pub open spec fn nearest_time(
    year: int,
    month: int,
    day: int,
    hour: int,
    minute: int,
    second: int,
) -> Timestamp {
    Timestamp {
        year: nearest_in(year, 0, 9999) as u16,
        month: nearest_in(month, 1, 12) as u8,
        day: nearest_in(day, 1, 31) as u8,
        hour: nearest_in(hour, 0, 23) as u8,
        minute: nearest_in(minute, 0, 59) as u8,
        second: nearest_in(second, 0, 59) as u8,
    }
}

/// The number in `low..=high` that is nearest to `value`.
fn nearest(value: i64, low: u16, high: u16) -> (near: u16)
    requires
        low <= high,
    ensures
        near == nearest_in(value as int, low as int, high as int),
{
    if value < low as i64 {
        low
    } else if value > high as i64 {
        high
    } else {
        value as u16
    }
}

impl Timestamp {
    /// The time of a clock that counts its fields in wider numbers: each
    /// field is taken as it is where it is in range, and is the nearest
    /// number in range where it is not.
    pub fn saturating(year: i32, month: u32, day: u32, hour: u32, minute: u32, second: u32) -> (made:
        Timestamp)
        ensures
            made == nearest_time(
                year as int,
                month as int,
                day as int,
                hour as int,
                minute as int,
                second as int,
            ),
            made.in_range(),
            fields_in_range(
                year as int,
                month as int,
                day as int,
                hour as int,
                minute as int,
                second as int,
            ) ==> made.year == year && made.month == month && made.day == day && made.hour
                == hour && made.minute == minute && made.second == second,
    {
        Timestamp {
            year: nearest(year as i64, 0, 9999),
            month: nearest(month as i64, 1, 12) as u8,
            day: nearest(day as i64, 1, 31) as u8,
            hour: nearest(hour as i64, 0, 23) as u8,
            minute: nearest(minute as i64, 0, 59) as u8,
            second: nearest(second as i64, 0, 59) as u8,
        }
    }


    /// Whether the fields of this time are in range.
    pub open spec fn in_range(&self) -> bool {
        fields_in_range(
            self.year as int,
            self.month as int,
            self.day as int,
            self.hour as int,
            self.minute as int,
            self.second as int,
        )
    }

    /// The time with these fields, where they are in range.
    pub fn new(year: u16, month: u8, day: u8, hour: u8, minute: u8, second: u8) -> (made: Option<
        Timestamp,
    >)
        ensures
            made is Some <==> fields_in_range(
                year as int,
                month as int,
                day as int,
                hour as int,
                minute as int,
                second as int,
            ),
            made matches Some(t) ==> t == (Timestamp { year, month, day, hour, minute, second })
                && t.in_range(),
    {
        if year <= 9999 && 1 <= month && month <= 12 && 1 <= day && day <= 31 && hour <= 23
            && minute <= 59 && second <= 59 {
            Some(Timestamp { year, month, day, hour, minute, second })
        } else {
            None
        }
    }

    /// This time as `YYYY-MM-DD HH:MM:SS`.
    pub fn format(&self) -> (text: String)
        ensures
            text@ == timestamp_text_of(*self),
            has_timestamp_shape(text@),
    {
        let mut text = String::new();
        push_padded(&mut text, self.year as u64, 4);
        text.append("-");
        push_padded(&mut text, self.month as u64, 2);
        text.append("-");
        push_padded(&mut text, self.day as u64, 2);
        text.append(" ");
        push_padded(&mut text, self.hour as u64, 2);
        text.append(":");
        push_padded(&mut text, self.minute as u64, 2);
        text.append(":");
        push_padded(&mut text, self.second as u64, 2);
        proof {
            reveal_strlit("-");
            reveal_strlit(" ");
            reveal_strlit(":");
            assert("-"@ =~= seq!['-']);
            assert(" "@ =~= seq![' ']);
            assert(":"@ =~= seq![':']);
            assert(text@ =~= timestamp_text_of(*self));
            timestamp_text_has_shape(*self);
        }
        text
    }
}

/// Every time, written out, has the shape `dddd-dd-dd dd:dd:dd`.
pub proof fn timestamp_text_has_shape(t: Timestamp)
    ensures
        has_timestamp_shape(timestamp_text_of(t)),
{
    padded_is_digits(t.year as nat, 4);
    padded_is_digits(t.month as nat, 2);
    padded_is_digits(t.day as nat, 2);
    padded_is_digits(t.hour as nat, 2);
    padded_is_digits(t.minute as nat, 2);
    padded_is_digits(t.second as nat, 2);
    let text = timestamp_text_of(t);
    assert(text.len() == 19);
    assert forall|i: int|
        0 <= i < 19 && i != 4 && i != 7 && i != 10 && i != 13 && i != 16 implies is_digit(
        #[trigger] text[i],
    ) by {
        if i < 4 {
            assert(text[i] == padded_of(t.year as nat, 4)[i]);
        } else if i < 7 {
            assert(text[i] == padded_of(t.month as nat, 2)[i - 5]);
        } else if i < 10 {
            assert(text[i] == padded_of(t.day as nat, 2)[i - 8]);
        } else if i < 13 {
            assert(text[i] == padded_of(t.hour as nat, 2)[i - 11]);
        } else if i < 16 {
            assert(text[i] == padded_of(t.minute as nat, 2)[i - 14]);
        } else {
            assert(text[i] == padded_of(t.second as nat, 2)[i - 17]);
        }
    }
}

/// The text of a time whose fields are in range names that time: each of
/// its six groups of digits, read as a number, is the field it stands for.
pub proof fn timestamp_text_names_the_time(t: Timestamp)
    requires
        t.in_range(),
    ensures
        decimal_value(timestamp_text_of(t).subrange(0, 4)) == t.year,
        decimal_value(timestamp_text_of(t).subrange(5, 7)) == t.month,
        decimal_value(timestamp_text_of(t).subrange(8, 10)) == t.day,
        decimal_value(timestamp_text_of(t).subrange(11, 13)) == t.hour,
        decimal_value(timestamp_text_of(t).subrange(14, 16)) == t.minute,
        decimal_value(timestamp_text_of(t).subrange(17, 19)) == t.second,
{
    let text = timestamp_text_of(t);
    padded_is_digits(t.year as nat, 4);
    padded_is_digits(t.month as nat, 2);
    padded_is_digits(t.day as nat, 2);
    padded_is_digits(t.hour as nat, 2);
    padded_is_digits(t.minute as nat, 2);
    padded_is_digits(t.second as nat, 2);
    assert(pow10(2) == 100 && pow10(4) == 10000) by {
        reveal_with_fuel(pow10, 5);
    }
    padded_reads_back(t.year as nat, 4);
    padded_reads_back(t.month as nat, 2);
    padded_reads_back(t.day as nat, 2);
    padded_reads_back(t.hour as nat, 2);
    padded_reads_back(t.minute as nat, 2);
    padded_reads_back(t.second as nat, 2);
    assert(text.subrange(0, 4) =~= padded_of(t.year as nat, 4));
    assert(text.subrange(5, 7) =~= padded_of(t.month as nat, 2));
    assert(text.subrange(8, 10) =~= padded_of(t.day as nat, 2));
    assert(text.subrange(11, 13) =~= padded_of(t.hour as nat, 2));
    assert(text.subrange(14, 16) =~= padded_of(t.minute as nat, 2));
    assert(text.subrange(17, 19) =~= padded_of(t.second as nat, 2));
}

} // verus!
