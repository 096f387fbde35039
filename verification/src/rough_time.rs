//! Rough points in time and their English descriptions.

use vstd::prelude::*;
use vstd::string::StringExecFns;

verus! {

/// The decimal digit character for `d`, which must be below ten.
pub open spec fn decimal_digit(d: nat) -> char
    recommends
        d < 10,
{
    if d == 0 {
        '0'
    } else if d == 1 {
        '1'
    } else if d == 2 {
        '2'
    } else if d == 3 {
        '3'
    } else if d == 4 {
        '4'
    } else if d == 5 {
        '5'
    } else if d == 6 {
        '6'
    } else if d == 7 {
        '7'
    } else if d == 8 {
        '8'
    } else {
        '9'
    }
}

/// The decimal digits of `n`, most significant first, with no leading zero
/// except for `n == 0` itself.
pub open spec fn decimal_digits(n: nat) -> Seq<char>
    decreases n,
{
    if n < 10 {
        seq![decimal_digit(n)]
    } else {
        decimal_digits(n / 10).push(decimal_digit(n % 10))
    }
}

/// The one-character string for the decimal digit `d`.
fn digit_str(d: u32) -> (s: &'static str)
    requires
        d < 10,
    ensures
        s@ == seq![decimal_digit(d as nat)],
{
    if d == 0 {
        proof {
            reveal_strlit("0");
            assert("0"@ =~= seq!['0']);
        }
        "0"
    } else if d == 1 {
        proof {
            reveal_strlit("1");
            assert("1"@ =~= seq!['1']);
        }
        "1"
    } else if d == 2 {
        proof {
            reveal_strlit("2");
            assert("2"@ =~= seq!['2']);
        }
        "2"
    } else if d == 3 {
        proof {
            reveal_strlit("3");
            assert("3"@ =~= seq!['3']);
        }
        "3"
    } else if d == 4 {
        proof {
            reveal_strlit("4");
            assert("4"@ =~= seq!['4']);
        }
        "4"
    } else if d == 5 {
        proof {
            reveal_strlit("5");
            assert("5"@ =~= seq!['5']);
        }
        "5"
    } else if d == 6 {
        proof {
            reveal_strlit("6");
            assert("6"@ =~= seq!['6']);
        }
        "6"
    } else if d == 7 {
        proof {
            reveal_strlit("7");
            assert("7"@ =~= seq!['7']);
        }
        "7"
    } else if d == 8 {
        proof {
            reveal_strlit("8");
            assert("8"@ =~= seq!['8']);
        }
        "8"
    } else {
        proof {
            reveal_strlit("9");
            assert("9"@ =~= seq!['9']);
        }
        "9"
    }
}

/// Renders `n` in decimal, most significant digit first.
pub fn u32_to_decimal(n: u32) -> (s: String)
    ensures
        s@ == decimal_digits(n as nat),
    decreases n,
{
    if n < 10 {
        let s = digit_str(n).to_owned();
        proof {
            assert(s@ =~= decimal_digits(n as nat));
        }
        s
    } else {
        let mut s = u32_to_decimal(n / 10);
        s.append(digit_str(n % 10));
        proof {
            assert(s@ =~= decimal_digits(n as nat));
        }
        s
    }
}

/// A unit of time, from seconds up to years.
#[derive(Copy, Clone, Debug, PartialEq, Eq, Structural)]
pub enum TimeUnit {
    Seconds,
    Minutes,
    Hours,
    Days,
    Months,
    Years,
}

impl TimeUnit {
    /// The English plural noun for this unit.
    pub open spec fn plural_spec(self) -> Seq<char> {
        match self {
            TimeUnit::Seconds => "seconds"@,
            TimeUnit::Minutes => "minutes"@,
            TimeUnit::Hours => "hours"@,
            TimeUnit::Days => "days"@,
            TimeUnit::Months => "months"@,
            TimeUnit::Years => "years"@,
        }
    }

    /// The English plural noun for this unit.
    pub fn plural(self) -> (s: &'static str)
        ensures
            s@ == self.plural_spec(),
    {
        match self {
            TimeUnit::Seconds => "seconds",
            TimeUnit::Minutes => "minutes",
            TimeUnit::Hours => "hours",
            TimeUnit::Days => "days",
            TimeUnit::Months => "months",
            TimeUnit::Years => "years",
        }
    }

    /// The English singular noun for this unit: the plural without its
    /// trailing `s`.
    pub fn singular(self) -> (s: &'static str)
        ensures
            s@ == self.plural_spec().drop_last(),
    {
        match self {
            TimeUnit::Seconds => {
                proof {
                    reveal_strlit("seconds");
                    reveal_strlit("second");
                    assert("second"@ =~= "seconds"@.drop_last());
                }
                "second"
            },
            TimeUnit::Minutes => {
                proof {
                    reveal_strlit("minutes");
                    reveal_strlit("minute");
                    assert("minute"@ =~= "minutes"@.drop_last());
                }
                "minute"
            },
            TimeUnit::Hours => {
                proof {
                    reveal_strlit("hours");
                    reveal_strlit("hour");
                    assert("hour"@ =~= "hours"@.drop_last());
                }
                "hour"
            },
            TimeUnit::Days => {
                proof {
                    reveal_strlit("days");
                    reveal_strlit("day");
                    assert("day"@ =~= "days"@.drop_last());
                }
                "day"
            },
            TimeUnit::Months => {
                proof {
                    reveal_strlit("months");
                    reveal_strlit("month");
                    assert("month"@ =~= "months"@.drop_last());
                }
                "month"
            },
            TimeUnit::Years => {
                proof {
                    reveal_strlit("years");
                    reveal_strlit("year");
                    assert("year"@ =~= "years"@.drop_last());
                }
                "year"
            },
        }
    }
}

/// A rough point in time relative to now: some units into the past, now
/// itself, or some units into the future.
#[derive(Copy, Clone, Debug, PartialEq, Eq, Structural)]
pub enum RoughTime {
    InThePast(TimeUnit, u32),
    JustNow,
    InTheFuture(TimeUnit, u32),
}

/// The English phrase for a rough time: the count in decimal, the unit's
/// plural, and `ago` or `from now`; or `just now`.
pub open spec fn rough_time_english(rt: RoughTime) -> Seq<char> {
    match rt {
        RoughTime::InThePast(units, count) => decimal_digits(count as nat) + " "@
            + units.plural_spec() + " ago"@,
        RoughTime::JustNow => "just now"@,
        RoughTime::InTheFuture(units, count) => decimal_digits(count as nat) + " "@
            + units.plural_spec() + " from now"@,
    }
}

/// Renders a rough time as its English phrase.
pub fn rough_time_to_english(rt: RoughTime) -> (s: String)
    ensures
        s@ == rough_time_english(rt),
{
    match rt {
        RoughTime::InThePast(units, count) => {
            let mut s = u32_to_decimal(count);
            s.append(" ");
            s.append(units.plural());
            s.append(" ago");
            proof {
                assert(s@ =~= rough_time_english(rt));
            }
            s
        },
        RoughTime::JustNow => "just now".to_owned(),
        RoughTime::InTheFuture(units, count) => {
            let mut s = u32_to_decimal(count);
            s.append(" ");
            s.append(units.plural());
            s.append(" from now");
            proof {
                assert(s@ =~= rough_time_english(rt));
            }
            s
        },
    }
}

} // verus!
