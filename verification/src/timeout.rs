//! A validated duration-of-day timeout with a strict `HH:MM:SS` text form.

use vstd::prelude::*;

use crate::error::Error;
use crate::text::{digit_char, digit_val, is_digit, push_char, push_two_digits};

verus! {

/// A task or subtask timeout: a duration of day, strictly positive,
/// below twenty-four hours.
///
/// A `Timeout` is created from text in the exact form `HH:MM:SS`
/// (two digits per field, hours below 24, minutes and seconds below 60),
/// or from its three fields; a zero duration is rejected at construction.
#[derive(Debug, Copy, Clone, PartialEq, Eq, Structural)]
pub struct Timeout {
    /// Hours field, at most 23 in a well-formed timeout.
    pub hours: u8,
    /// Minutes field, at most 59 in a well-formed timeout.
    pub minutes: u8,
    /// Seconds field, at most 59 in a well-formed timeout.
    pub seconds: u8,
}

/// The hour, minute and second values encoded by `s` if it has the exact
/// shape `HH:MM:SS` with decimal digits, field ranges not yet checked.
pub open spec fn spec_hms(s: Seq<char>) -> Option<(int, int, int)> {
    if s.len() == 8 && s[2] == ':' && s[5] == ':' && is_digit(s[0]) && is_digit(s[1]) && is_digit(
        s[3],
    ) && is_digit(s[4]) && is_digit(s[6]) && is_digit(s[7]) {
        Some(
            (
                10 * digit_val(s[0]) + digit_val(s[1]),
                10 * digit_val(s[3]) + digit_val(s[4]),
                10 * digit_val(s[6]) + digit_val(s[7]),
            ),
        )
    } else {
        None
    }
}

impl Timeout {
    /// A valid timeout: fields in range and total duration positive.
    pub open spec fn wf(self) -> bool {
        self.hours <= 23 && self.minutes <= 59 && self.seconds <= 59 && (self.hours > 0
            || self.minutes > 0 || self.seconds > 0)
    }

    /// The total duration in seconds.
    pub open spec fn total_seconds(self) -> int {
        3600 * self.hours + 60 * self.minutes + self.seconds
    }

    /// What parsing a timeout string returns: the timeout it denotes, or
    /// the parse error for a malformed or out-of-range string, or the
    /// zero-timeout error for `00:00:00`.
    pub open spec fn spec_from_str(s: Seq<char>) -> Result<Timeout, Error> {
        match spec_hms(s) {
            Option::None => Result::Err(Error::TimeoutParseError),
            Option::Some((h, m, sec)) => if !(h <= 23 && m <= 59 && sec <= 59) {
                Result::Err(Error::TimeoutParseError)
            } else if h == 0 && m == 0 && sec == 0 {
                Result::Err(Error::ZeroTimeoutError)
            } else {
                Result::Ok(
                    Timeout { hours: h as u8, minutes: m as u8, seconds: sec as u8 },
                )
            },
        }
    }

    /// What constructing a timeout from fields returns: range errors are
    /// parse errors, the zero duration is the zero-timeout error.
    pub open spec fn spec_from_hms(hours: u8, minutes: u8, seconds: u8) -> Result<Timeout, Error> {
        if !(hours <= 23 && minutes <= 59 && seconds <= 59) {
            Result::Err(Error::TimeoutParseError)
        } else if hours == 0 && minutes == 0 && seconds == 0 {
            Result::Err(Error::ZeroTimeoutError)
        } else {
            Result::Ok(Timeout { hours, minutes, seconds })
        }
    }

    /// The canonical `HH:MM:SS` text of this timeout.
    pub open spec fn spec_text(self) -> Seq<char> {
        seq![
            digit_char(self.hours as int / 10),
            digit_char(self.hours as int % 10),
            ':',
            digit_char(self.minutes as int / 10),
            digit_char(self.minutes as int % 10),
            ':',
            digit_char(self.seconds as int / 10),
            digit_char(self.seconds as int % 10),
        ]
    }

    /// Parses a timeout from text in the exact form `HH:MM:SS`.
    pub fn from_str(value: &str) -> (r: Result<Timeout, Error>)
        ensures
            r == Self::spec_from_str(value@),
            r matches Result::Ok(t) ==> t.wf(),
    {
        if value.unicode_len() != 8 {
            return Result::Err(Error::TimeoutParseError);
        }
        if value.get_char(2) != ':' || value.get_char(5) != ':' {
            return Result::Err(Error::TimeoutParseError);
        }
        let d0 = match digit_of(value.get_char(0)) {
            Option::Some(d) => d,
            Option::None => { return Result::Err(Error::TimeoutParseError) },
        };
        let d1 = match digit_of(value.get_char(1)) {
            Option::Some(d) => d,
            Option::None => { return Result::Err(Error::TimeoutParseError) },
        };
        let d3 = match digit_of(value.get_char(3)) {
            Option::Some(d) => d,
            Option::None => { return Result::Err(Error::TimeoutParseError) },
        };
        let d4 = match digit_of(value.get_char(4)) {
            Option::Some(d) => d,
            Option::None => { return Result::Err(Error::TimeoutParseError) },
        };
        let d6 = match digit_of(value.get_char(6)) {
            Option::Some(d) => d,
            Option::None => { return Result::Err(Error::TimeoutParseError) },
        };
        let d7 = match digit_of(value.get_char(7)) {
            Option::Some(d) => d,
            Option::None => { return Result::Err(Error::TimeoutParseError) },
        };
        let hours: u8 = 10 * d0 + d1;
        let minutes: u8 = 10 * d3 + d4;
        let seconds: u8 = 10 * d6 + d7;
        Self::from_hms(hours, minutes, seconds)
    }

    /// Builds a timeout from its hour, minute and second fields.
    pub fn from_hms(hours: u8, minutes: u8, seconds: u8) -> (r: Result<Timeout, Error>)
        ensures
            r == Self::spec_from_hms(hours, minutes, seconds),
            r matches Result::Ok(t) ==> t.wf(),
    {
        if !(hours <= 23 && minutes <= 59 && seconds <= 59) {
            Result::Err(Error::TimeoutParseError)
        } else if hours == 0 && minutes == 0 && seconds == 0 {
            Result::Err(Error::ZeroTimeoutError)
        } else {
            Result::Ok(Timeout { hours, minutes, seconds })
        }
    }

    /// The `HH:MM:SS` text of this timeout.
    pub fn text(&self) -> (r: String)
        requires
            self.wf(),
        ensures
            r@ == self.spec_text(),
    {
        let mut out = String::new();
        push_two_digits(&mut out, self.hours);
        push_char(&mut out, ':');
        push_two_digits(&mut out, self.minutes);
        push_char(&mut out, ':');
        push_two_digits(&mut out, self.seconds);
        proof {
            assert(out@ =~= self.spec_text());
        }
        out
    }
}

/// The value of `c` as a decimal digit, if it is one.
fn digit_of(c: char) -> (r: Option<u8>)
    ensures
        r matches Option::Some(d) ==> is_digit(c) && d < 10 && d == digit_val(c),
        r is None ==> !is_digit(c),
{
    let u = c as u32;
    if 48 <= u && u <= 57 {
        Option::Some((u - 48) as u8)
    } else {
        Option::None
    }
}

/// Formatting a valid timeout and parsing the result yields it back:
/// the text round-trip law.
pub proof fn lemma_text_round_trip(t: Timeout)
    requires
        t.wf(),
    ensures
        Timeout::spec_from_str(t.spec_text()) == Result::<Timeout, Error>::Ok(t),
{
    let s = t.spec_text();
    lemma_digit_char_val_all();
    assert(spec_hms(s) == Option::Some(
        (t.hours as int, t.minutes as int, t.seconds as int),
    ));
}

proof fn lemma_digit_char_val_all()
    ensures
        forall|d: int|
            0 <= d <= 9 ==> #[trigger] is_digit(digit_char(d)) && digit_val(digit_char(d)) == d,
{
    assert forall|d: int| 0 <= d <= 9 implies #[trigger] is_digit(digit_char(d)) && digit_val(
        digit_char(d),
    ) == d by {
        crate::text::lemma_digit_char_val(d);
    }
}

} // verus!
