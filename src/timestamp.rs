//! Local civil time as plain fields, and its rendering as text.
use vstd::prelude::*;

verus! {

/// A local civil date and time of day, to the second.
#[derive(Debug, Clone, Copy, PartialEq, Eq, Structural)]
pub struct Timestamp {
    pub year: i32,
    pub month: u8,
    pub day: u8,
    pub hour: u8,
    pub minute: u8,
    pub second: u8,
}

/// The decimal digit `d` as a character.
pub open spec fn digit(d: nat) -> char {
    seq!['0', '1', '2', '3', '4', '5', '6', '7', '8', '9'][d as int]
}

/// The shortest decimal text of `n`.
pub open spec fn decimal(n: nat) -> Seq<char>
    decreases n,
{
    if n < 10 {
        seq![digit(n)]
    } else {
        decimal(n / 10).push(digit(n % 10))
    }
}

/// `n` in two digits, with a leading zero below ten.
pub open spec fn two_digits(n: nat) -> Seq<char> {
    seq![digit(n / 10), digit(n % 10)]
}

/// `n` in at least four digits, with leading zeros below a thousand.
pub open spec fn four_digits(n: nat) -> Seq<char> {
    if n < 10000 {
        seq![digit(n / 1000), digit(n / 100 % 10), digit(n / 10 % 10), digit(n % 10)]
    } else {
        decimal(n)
    }
}

/// A year as four digits; outside 0 to 9999 it carries its sign.
pub open spec fn year_text(y: int) -> Seq<char> {
    if 0 <= y <= 9999 {
        four_digits(y as nat)
    } else if y < 0 {
        seq!['-'] + four_digits((-y) as nat)
    } else {
        seq!['+'] + four_digits(y as nat)
    }
}

impl Timestamp {
    /// The fields are within the ranges of a civil date and time of day.
    pub open spec fn wf(&self) -> bool {
        &&& 1 <= self.month <= 12
        &&& 1 <= self.day <= 31
        &&& self.hour < 24
        &&& self.minute < 60
        &&& self.second < 60
    }

    /// The date as `YYYY-MM-DD`.
    pub open spec fn date_text(&self) -> Seq<char> {
        year_text(self.year as int) + seq!['-'] + two_digits(self.month as nat) + seq!['-']
            + two_digits(self.day as nat)
    }

    /// The time of day as `HH:MM:SS`.
    pub open spec fn time_text(&self) -> Seq<char> {
        two_digits(self.hour as nat) + seq![':'] + two_digits(self.minute as nat) + seq![':']
            + two_digits(self.second as nat)
    }

    /// A timestamp from its fields, or `None` where one is out of range.
    pub fn new(year: i32, month: u32, day: u32, hour: u32, minute: u32, second: u32) -> (r:
        Option<Timestamp>)
        ensures
            r is Some <==> (1 <= month <= 12 && 1 <= day <= 31 && hour < 24 && minute < 60
                && second < 60),
            r matches Some(t) ==> t.wf() && t.year == year && t.month == month && t.day == day
                && t.hour == hour && t.minute == minute && t.second == second,
    {
        if 1 <= month && month <= 12 && 1 <= day && day <= 31 && hour < 24 && minute < 60
            && second < 60 {
            Some(
                Timestamp {
                    year,
                    month: month as u8,
                    day: day as u8,
                    hour: hour as u8,
                    minute: minute as u8,
                    second: second as u8,
                },
            )
        } else {
            None
        }
    }

    /// The current local time, read from the system clock; `None` where the clock
    /// reads before 1970 or the time cannot be represented.
    pub fn now() -> (r: Option<Timestamp>)
        ensures
            r matches Some(t) ==> t.wf(),
    {
        match unix_clock() {
            Some(p) => {
                if p.0 <= i64::MAX as u64 {
                    local_from_unix(p.0 as i64, p.1)
                } else {
                    None
                }
            },
            None => None,
        }
    }
}

/// Relies on `std::time::SystemTime::now` and `duration_since(UNIX_EPOCH)`: the whole
/// seconds and the nanoseconds since 1970, or `None` where the clock reads earlier;
/// `Duration::subsec_nanos` is documented to be less than one billion.
#[verifier::external_body]
fn unix_clock() -> (r: Option<(u64, u32)>)
    ensures
        r matches Some(p) ==> p.1 < 1000000000,
{
    match std::time::SystemTime::now().duration_since(std::time::UNIX_EPOCH) {
        Ok(d) => Some((d.as_secs(), d.subsec_nanos())),
        Err(_) => None,
    }
}

/// Relies on `chrono::DateTime::from_timestamp` (`None` out of range) and
/// `with_timezone(&chrono::Local)`, read through chrono's `Datelike` / `Timelike`
/// accessors, which document month 1 to 12, day 1 to 31, hour 0 to 23, minute and
/// second 0 to 59.
#[verifier::external_body]
fn local_from_unix(secs: i64, nanos: u32) -> (r: Option<Timestamp>)
    ensures
        r matches Some(t) ==> t.wf(),
{
    match chrono::DateTime::from_timestamp(secs, nanos) {
        Some(utc) => {
            let t = utc.with_timezone(&chrono::Local);
            Some(Timestamp {
                year: chrono::Datelike::year(&t),
                month: chrono::Datelike::month(&t) as u8,
                day: chrono::Datelike::day(&t) as u8,
                hour: chrono::Timelike::hour(&t) as u8,
                minute: chrono::Timelike::minute(&t) as u8,
                second: chrono::Timelike::second(&t) as u8,
            })
        },
        None => None,
    }
}

/// The digit `d` as a one-character string.
fn digit_str(d: u32) -> (r: &'static str)
    requires
        d < 10,
    ensures
        r@ == seq![digit(d as nat)],
{
    proof {
        reveal_strlit("0");
        reveal_strlit("1");
        reveal_strlit("2");
        reveal_strlit("3");
        reveal_strlit("4");
        reveal_strlit("5");
        reveal_strlit("6");
        reveal_strlit("7");
        reveal_strlit("8");
        reveal_strlit("9");
    }
    match d {
        0 => "0",
        1 => "1",
        2 => "2",
        3 => "3",
        4 => "4",
        5 => "5",
        6 => "6",
        7 => "7",
        8 => "8",
        _ => "9",
    }
}

/// Appends the shortest decimal text of `n`.
pub(crate) fn push_decimal(s: &mut String, n: u32)
    ensures
        final(s)@ == old(s)@ + decimal(n as nat),
    decreases n,
{
    if n >= 10 {
        push_decimal(s, n / 10);
    }
    s.append(digit_str(n % 10));
    proof {
        assert(decimal(n as nat) == if n < 10 {
            seq![digit(n as nat)]
        } else {
            decimal((n / 10) as nat).push(digit((n % 10) as nat))
        });
    }
}

/// Appends `n` in two digits.
fn push_two_digits(s: &mut String, n: u8)
    requires
        n < 100,
    ensures
        final(s)@ == old(s)@ + two_digits(n as nat),
{
    s.append(digit_str((n / 10) as u32));
    s.append(digit_str((n % 10) as u32));
}

/// Appends `n` in at least four digits.
fn push_four_digits(s: &mut String, n: u32)
    ensures
        final(s)@ == old(s)@ + four_digits(n as nat),
{
    if n < 10000 {
        s.append(digit_str(n / 1000));
        s.append(digit_str(n / 100 % 10));
        s.append(digit_str(n / 10 % 10));
        s.append(digit_str(n % 10));
    } else {
        push_decimal(s, n);
    }
}

/// Appends the year `y` as `year_text` renders it.
fn push_year(s: &mut String, y: i32)
    ensures
        final(s)@ == old(s)@ + year_text(y as int),
{
    proof {
        reveal_strlit("-");
        reveal_strlit("+");
    }
    if 0 <= y && y <= 9999 {
        push_four_digits(s, y as u32);
    } else if y < 0 {
        s.append("-");
        let a: u32 = (0i64 - y as i64) as u32;
        push_four_digits(s, a);
    } else {
        s.append("+");
        push_four_digits(s, y as u32);
    }
}

impl Timestamp {
    /// Appends the date as `YYYY-MM-DD`.
    pub fn push_date(&self, s: &mut String)
        requires
            self.wf(),
        ensures
            final(s)@ == old(s)@ + self.date_text(),
    {
        proof {
            reveal_strlit("-");
        }
        push_year(s, self.year);
        s.append("-");
        push_two_digits(s, self.month);
        s.append("-");
        push_two_digits(s, self.day);
    }

    /// Appends the time of day as `HH:MM:SS`.
    pub fn push_time(&self, s: &mut String)
        requires
            self.wf(),
        ensures
            final(s)@ == old(s)@ + self.time_text(),
    {
        proof {
            reveal_strlit(":");
        }
        push_two_digits(s, self.hour);
        s.append(":");
        push_two_digits(s, self.minute);
        s.append(":");
        push_two_digits(s, self.second);
    }

    /// The date as `YYYY-MM-DD`.
    pub fn date_string(&self) -> (r: String)
        requires
            self.wf(),
        ensures
            r@ == self.date_text(),
    {
        let mut s = String::new();
        self.push_date(&mut s);
        s
    }
}

} // verus!
