use vstd::prelude::*;

use crate::timestamp::NANOS_PER_SEC;

verus! {

/// A duration split into days, hours, minutes and seconds for display.
#[derive(Clone, Copy, Debug, PartialEq, Eq, Structural)]
pub struct FormattedDuration {
    pub seconds: u64,
    pub minutes: u64,
    pub hours: u64,
    pub days: u64,
}

/// The character of a decimal digit.
pub open spec fn digit_char(d: nat) -> char {
    if d == 0 {
        '0'
    } else if d == 1 {
        '1'
    } else if d == 2 {
        '2'
    } else if d == 3 {
        '3'
    } else if d == 4 {
        '4'
    } else if d == 5 {
        '5'
    } else if d == 6 {
        '6'
    } else if d == 7 {
        '7'
    } else if d == 8 {
        '8'
    } else {
        '9'
    }
}

/// The decimal digits of `n`, without leading zeros.
pub open spec fn decimal(n: nat) -> Seq<char>
    decreases n,
{
    if n < 10 {
        seq![digit_char(n)]
    } else {
        decimal(n / 10) + seq![digit_char(n % 10)]
    }
}

/// The decimal digits of `n`, padded with a zero to at least two.
pub open spec fn two_digits(n: nat) -> Seq<char> {
    if n < 10 {
        seq!['0'] + decimal(n)
    } else {
        decimal(n)
    }
}

/// `hh:mm:ss`, preceded by the number of days and `d ` where there are any.
pub open spec fn duration_text(d: FormattedDuration) -> Seq<char> {
    let clock = two_digits(d.hours as nat) + seq![':'] + two_digits(d.minutes as nat) + seq![':']
        + two_digits(d.seconds as nat);
    if d.days > 0 {
        decimal(d.days as nat) + seq!['d', ' '] + clock
    } else {
        clock
    }
}

fn digit_str(d: u64) -> (r: &'static str)
    requires
        d < 10,
    ensures
        r@ == seq![digit_char(d as nat)],
{
    proof {
        reveal_strlit("0");
        reveal_strlit("1");
        reveal_strlit("2");
        reveal_strlit("3");
        reveal_strlit("4");
        reveal_strlit("5");
        reveal_strlit("6");
        reveal_strlit("7");
        reveal_strlit("8");
        reveal_strlit("9");
    }
    if d == 0 {
        "0"
    } else if d == 1 {
        "1"
    } else if d == 2 {
        "2"
    } else if d == 3 {
        "3"
    } else if d == 4 {
        "4"
    } else if d == 5 {
        "5"
    } else if d == 6 {
        "6"
    } else if d == 7 {
        "7"
    } else if d == 8 {
        "8"
    } else {
        "9"
    }
}

fn push_decimal(out: &mut String, n: u64)
    ensures
        final(out)@ == old(out)@ + decimal(n as nat),
    decreases n,
{
    if n >= 10 {
        push_decimal(out, n / 10);
    }
    out.append(digit_str(n % 10));
    proof {
        if n >= 10 {
            assert(old(out)@ + decimal((n / 10) as nat) + seq![digit_char((n % 10) as nat)]
                =~= old(out)@ + decimal(n as nat));
        }
    }
}

fn push_two_digits(out: &mut String, n: u64)
    ensures
        final(out)@ == old(out)@ + two_digits(n as nat),
{
    if n < 10 {
        out.append(digit_str(0));
        push_decimal(out, n);
        assert(old(out)@ + seq!['0'] + decimal(n as nat) =~= old(out)@ + two_digits(n as nat));
    } else {
        push_decimal(out, n);
    }
}

fn push_str(out: &mut String, s: &str)
    ensures
        final(out)@ == old(out)@ + s@,
{
    out.append(s);
}

impl FormattedDuration {
    /// Splits the whole seconds of a duration given in nanoseconds.
    pub fn new(duration: u64) -> (r: FormattedDuration)
        ensures
            ({
                let t = duration / NANOS_PER_SEC;
                &&& r.seconds == t % 60
                &&& r.minutes == (t / 60) % 60
                &&& r.hours == (t / 3600) % 24
                &&& r.days == t / 86400
            }),
    {
        let mut t = duration / NANOS_PER_SEC;
        let seconds = t % 60;
        t = t / 60;
        let minutes = t % 60;
        t = t / 60;
        let hours = t % 24;
        t = t / 24;
        let days = if t > 0 {
            t
        } else {
            0
        };
        proof {
            let s = duration / NANOS_PER_SEC;
            assert(s / 60 / 60 == s / 3600) by {
                vstd::arithmetic::div_mod::lemma_div_denominator(s as int, 60, 60);
            }
            assert(s / 3600 / 24 == s / 86400) by {
                vstd::arithmetic::div_mod::lemma_div_denominator(s as int, 3600, 24);
            }
        }
        FormattedDuration { seconds, minutes, hours, days }
    }

    /// The duration as `hh:mm:ss`, preceded by `<days>d ` where there are any.
    pub fn to_string(&self) -> (r: String)
        ensures
            r@ == duration_text(*self),
    {
        let mut out = String::new();
        if self.days > 0 {
            push_decimal(&mut out, self.days);
            proof {
                reveal_strlit("d ");
            }
            push_str(&mut out, "d ");
        }
        proof {
            reveal_strlit(":");
        }
        push_two_digits(&mut out, self.hours);
        push_str(&mut out, ":");
        push_two_digits(&mut out, self.minutes);
        push_str(&mut out, ":");
        push_two_digits(&mut out, self.seconds);
        proof {
            let clock = two_digits(self.hours as nat) + seq![':'] + two_digits(self.minutes as nat)
                + seq![':'] + two_digits(self.seconds as nat);
            if self.days > 0 {
                assert(out@ =~= decimal(self.days as nat) + seq!['d', ' '] + clock);
            } else {
                assert(out@ =~= clock);
            }
        }
        out
    }
}

} // verus!
