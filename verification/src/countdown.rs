//! The time that is left until a checklist is cleared, as the screen shows
//! it: hours, minutes and seconds, and the line of text made of them.

use crate::checklist::Checklist;
use vstd::prelude::*;

verus! {

/// The seconds from `now` to `next_reset`; none once the instant has come.
pub open spec fn seconds_left(next_reset: i64, now: i64) -> nat {
    if next_reset > now {
        (next_reset - now) as nat
    } else {
        0
    }
}

/// The character of a decimal digit.
pub open spec fn digit(d: nat) -> char {
    if d == 0 {
        '0'
    } else if d == 1 {
        '1'
    } else if d == 2 {
        '2'
    } else if d == 3 {
        '3'
    } else if d == 4 {
        '4'
    } else if d == 5 {
        '5'
    } else if d == 6 {
        '6'
    } else if d == 7 {
        '7'
    } else if d == 8 {
        '8'
    } else {
        '9'
    }
}

/// A number in decimal digits, without leading zeros.
pub open spec fn decimal(n: nat) -> Seq<char>
    decreases n,
{
    if n < 10 {
        seq![digit(n)]
    } else {
        decimal(n / 10).push(digit(n % 10))
    }
}

/// A span of time in hours, minutes and seconds.
#[derive(Clone, Copy, Debug, PartialEq, Eq)]
pub struct Countdown {
    pub hours: u64,
    pub minutes: u64,
    pub seconds: u64,
}

impl Countdown {
    /// The span in seconds.
    pub open spec fn total(self) -> nat {
        (self.hours * 3600 + self.minutes * 60 + self.seconds) as nat
    }

    /// The line that shows the span: `resets in `, then hours, minutes and
    /// seconds in decimal with a colon between them.
    pub open spec fn text(self) -> Seq<char> {
        seq!['r', 'e', 's', 'e', 't', 's', ' ', 'i', 'n', ' '] + decimal(self.hours as nat) + seq![
            ':',
        ] + decimal(self.minutes as nat) + seq![':'] + decimal(self.seconds as nat)
    }

    /// The span from `now` to `next_reset`; zero once the instant has come.
    pub fn until(next_reset: i64, now: i64) -> (left: Countdown)
        ensures
            left.total() == seconds_left(next_reset, now),
            left.minutes < 60,
            left.seconds < 60,
            left.hours == seconds_left(next_reset, now) / 3600,
            left.minutes == (seconds_left(next_reset, now) / 60) % 60,
            left.seconds == seconds_left(next_reset, now) % 60,
    {
        let total: u64 = if next_reset > now {
            (next_reset as i128 - now as i128) as u64
        } else {
            0
        };
        let left = Countdown {
            hours: total / 3600,
            minutes: (total / 60) % 60,
            seconds: total % 60,
        };
        assert(left.hours * 3600 + left.minutes * 60 + left.seconds == total) by (nonlinear_arith)
            requires
                left.hours == total / 3600,
                left.minutes == (total / 60) % 60,
                left.seconds == total % 60,
        ;
        left
    }

    /// The line that shows the span.
    pub fn label(&self) -> (line: String)
        ensures
            line@ == self.text(),
    {
        let mut line = String::from_str("resets in ");
        proof {
            reveal_strlit("resets in ");
            reveal_strlit(":");
            assert(line@ =~= seq!['r', 'e', 's', 'e', 't', 's', ' ', 'i', 'n', ' ']);
            assert(":"@ =~= seq![':']);
        }
        append_decimal(&mut line, self.hours);
        line.append(":");
        append_decimal(&mut line, self.minutes);
        line.append(":");
        append_decimal(&mut line, self.seconds);
        line
    }
}

/// The text of one decimal digit.
fn digit_text(d: u64) -> (text: &'static str)
    requires
        d < 10,
    ensures
        text@ == seq![digit(d as nat)],
{
    proof {
        reveal_strlit("0");
        reveal_strlit("1");
        reveal_strlit("2");
        reveal_strlit("3");
        reveal_strlit("4");
        reveal_strlit("5");
        reveal_strlit("6");
        reveal_strlit("7");
        reveal_strlit("8");
        reveal_strlit("9");
    }
    let text = if d == 0 {
        "0"
    } else if d == 1 {
        "1"
    } else if d == 2 {
        "2"
    } else if d == 3 {
        "3"
    } else if d == 4 {
        "4"
    } else if d == 5 {
        "5"
    } else if d == 6 {
        "6"
    } else if d == 7 {
        "7"
    } else if d == 8 {
        "8"
    } else {
        "9"
    };
    assert(text@ =~= seq![digit(d as nat)]);
    text
}

/// Writes a number in decimal at the end of the text.
fn append_decimal(out: &mut String, n: u64)
    ensures
        final(out)@ == old(out)@ + decimal(n as nat),
    decreases n,
{
    if n >= 10 {
        append_decimal(out, n / 10);
    }
    out.append(digit_text(n % 10));
    proof {
        if n >= 10 {
            assert(out@ =~= old(out)@ + decimal((n / 10) as nat).push(digit((n % 10) as nat)));
        } else {
            assert(out@ =~= old(out)@ + seq![digit(n as nat)]);
        }
    }
}

impl Checklist {
    /// The time that is left until the checklist is cleared; `None` while
    /// no clearing is worked out.
    pub fn time_left(&self, now: i64) -> (left: Option<Countdown>)
        ensures
            left is Some <==> self@.next_reset is Some,
            left matches Some(span) ==> {
                &&& span.total() == seconds_left(self@.next_reset.unwrap(), now)
                &&& span.hours == seconds_left(self@.next_reset.unwrap(), now) / 3600
                &&& span.minutes == (seconds_left(self@.next_reset.unwrap(), now) / 60) % 60
                &&& span.seconds == seconds_left(self@.next_reset.unwrap(), now) % 60
            },
    {
        match self.next_reset() {
            Some(at) => Some(Countdown::until(at, now)),
            None => None,
        }
    }
}

} // verus!
