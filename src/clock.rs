use chrono::{Datelike, Timelike};
use vstd::prelude::*;

verus! {

/// The character of a decimal digit.
pub open spec fn digit_char(d: int) -> char {
    seq!['0', '1', '2', '3', '4', '5', '6', '7', '8', '9'][d]
}

/// A number below one hundred as two digits, with a leading zero.
pub open spec fn two_digits(n: int) -> Seq<char> {
    seq![digit_char(n / 10), digit_char(n % 10)]
}

/// A number below ten thousand as four digits, with leading zeros.
pub open spec fn four_digits(n: int) -> Seq<char> {
    two_digits(n / 100) + two_digits(n % 100)
}

/// A wall-clock reading at second resolution.
#[derive(Clone, Copy, Debug, PartialEq, Eq)]
pub struct Timestamp {
    pub year: u32,
    pub month: u32,
    pub day: u32,
    pub hour: u32,
    pub minute: u32,
    pub second: u32,
}

impl Timestamp {
    /// Every field lies in its calendar range, and the year has four digits.
    pub open spec fn wf(self) -> bool {
        &&& self.year <= 9999
        &&& 1 <= self.month <= 12
        &&& 1 <= self.day <= 31
        &&& self.hour < 24
        &&& self.minute < 60
        &&& self.second < 60
    }

    /// `YYYY-MM-DD`.
    pub open spec fn date_text(self) -> Seq<char> {
        four_digits(self.year as int) + seq!['-'] + two_digits(self.month as int) + seq!['-']
            + two_digits(self.day as int)
    }

    /// `YYYY-MM-DD-HH-MM-SS`.
    pub open spec fn stamp_text(self) -> Seq<char> {
        self.date_text() + seq!['-'] + two_digits(self.hour as int) + seq!['-'] + two_digits(
            self.minute as int,
        ) + seq!['-'] + two_digits(self.second as int)
    }

    /// Builds a reading from its fields; `None` where a field is out of range.
    pub fn new(year: i32, month: u32, day: u32, hour: u32, minute: u32, second: u32) -> (r:
        Option<Timestamp>)
        ensures
            r.is_some() <==> (0 <= year <= 9999 && 1 <= month <= 12 && 1 <= day <= 31 && hour
                < 24 && minute < 60 && second < 60),
            r matches Some(t) ==> t.wf() && t.year == year && t.month == month && t.day == day
                && t.hour == hour && t.minute == minute && t.second == second,
    {
        if 0 <= year && year <= 9999 && 1 <= month && month <= 12 && 1 <= day && day <= 31 && hour
            < 24 && minute < 60 && second < 60 {
            Some(Timestamp { year: year as u32, month, day, hour, minute, second })
        } else {
            None
        }
    }

    /// The calendar date, as `YYYY-MM-DD`.
    pub fn date_key(&self) -> (r: String)
        requires
            self.wf(),
        ensures
            r@ == self.date_text(),
    {
        let mut s = String::new();
        push_four_digits(&mut s, self.year);
        s.append("-");
        push_two_digits(&mut s, self.month);
        s.append("-");
        push_two_digits(&mut s, self.day);
        proof {
            reveal_strlit("-");
            assert(s@ =~= self.date_text());
        }
        s
    }

    /// The date and the time of day, as `YYYY-MM-DD-HH-MM-SS`.
    pub fn stamp_key(&self) -> (r: String)
        requires
            self.wf(),
        ensures
            r@ == self.stamp_text(),
    {
        let mut s = self.date_key();
        s.append("-");
        push_two_digits(&mut s, self.hour);
        s.append("-");
        push_two_digits(&mut s, self.minute);
        s.append("-");
        push_two_digits(&mut s, self.second);
        proof {
            reveal_strlit("-");
            assert(s@ =~= self.stamp_text());
        }
        s
    }
}

/// Distinct digits are written with distinct characters.
pub proof fn lemma_digit_char_injective(a: int, b: int)
    requires
        0 <= a < 10,
        0 <= b < 10,
        digit_char(a) == digit_char(b),
    ensures
        a == b,
{
    let ds = seq!['0', '1', '2', '3', '4', '5', '6', '7', '8', '9'];
    assert(forall|i: int, j: int| 0 <= i < 10 && 0 <= j < 10 && i != j ==> ds[i] != ds[j]);
}

/// Two-digit text determines its number.
pub proof fn lemma_two_digits_injective(a: int, b: int)
    requires
        0 <= a < 100,
        0 <= b < 100,
        two_digits(a) == two_digits(b),
    ensures
        a == b,
{
    assert(two_digits(a)[0] == two_digits(b)[0]);
    assert(two_digits(a)[1] == two_digits(b)[1]);
    lemma_digit_char_injective(a / 10, b / 10);
    lemma_digit_char_injective(a % 10, b % 10);
}

/// Four-digit text determines its number.
pub proof fn lemma_four_digits_injective(a: int, b: int)
    requires
        0 <= a < 10000,
        0 <= b < 10000,
        four_digits(a) == four_digits(b),
    ensures
        a == b,
{
    assert(four_digits(a).subrange(0, 2) =~= two_digits(a / 100));
    assert(four_digits(b).subrange(0, 2) =~= two_digits(b / 100));
    assert(four_digits(a).subrange(2, 4) =~= two_digits(a % 100));
    assert(four_digits(b).subrange(2, 4) =~= two_digits(b % 100));
    lemma_two_digits_injective(a / 100, b / 100);
    lemma_two_digits_injective(a % 100, b % 100);
}

/// Readings that differ in any field, down to the second, are written
/// differently.
pub proof fn lemma_stamp_text_injective(a: Timestamp, b: Timestamp)
    requires
        a.wf(),
        b.wf(),
        a.stamp_text() == b.stamp_text(),
    ensures
        a == b,
{
    let (sa, sb) = (a.stamp_text(), b.stamp_text());
    assert(sa.subrange(0, 4) =~= four_digits(a.year as int));
    assert(sb.subrange(0, 4) =~= four_digits(b.year as int));
    assert(sa.subrange(5, 7) =~= two_digits(a.month as int));
    assert(sb.subrange(5, 7) =~= two_digits(b.month as int));
    assert(sa.subrange(8, 10) =~= two_digits(a.day as int));
    assert(sb.subrange(8, 10) =~= two_digits(b.day as int));
    assert(sa.subrange(11, 13) =~= two_digits(a.hour as int));
    assert(sb.subrange(11, 13) =~= two_digits(b.hour as int));
    assert(sa.subrange(14, 16) =~= two_digits(a.minute as int));
    assert(sb.subrange(14, 16) =~= two_digits(b.minute as int));
    assert(sa.subrange(17, 19) =~= two_digits(a.second as int));
    assert(sb.subrange(17, 19) =~= two_digits(b.second as int));
    lemma_four_digits_injective(a.year as int, b.year as int);
    lemma_two_digits_injective(a.month as int, b.month as int);
    lemma_two_digits_injective(a.day as int, b.day as int);
    lemma_two_digits_injective(a.hour as int, b.hour as int);
    lemma_two_digits_injective(a.minute as int, b.minute as int);
    lemma_two_digits_injective(a.second as int, b.second as int);
}

fn digit_str(d: u32) -> (r: &'static str)
    requires
        d < 10,
    ensures
        r@ == seq![digit_char(d as int)],
{
    proof {
        reveal_strlit("0");
        reveal_strlit("1");
        reveal_strlit("2");
        reveal_strlit("3");
        reveal_strlit("4");
        reveal_strlit("5");
        reveal_strlit("6");
        reveal_strlit("7");
        reveal_strlit("8");
        reveal_strlit("9");
    }
    let r = match d {
        0 => "0",
        1 => "1",
        2 => "2",
        3 => "3",
        4 => "4",
        5 => "5",
        6 => "6",
        7 => "7",
        8 => "8",
        _ => "9",
    };
    assert(r@ =~= seq![digit_char(d as int)]);
    r
}

fn push_two_digits(s: &mut String, n: u32)
    requires
        n < 100,
    ensures
        final(s)@ == old(s)@ + two_digits(n as int),
{
    s.append(digit_str(n / 10));
    s.append(digit_str(n % 10));
    assert(final(s)@ =~= old(s)@ + two_digits(n as int));
}

fn push_four_digits(s: &mut String, n: u32)
    requires
        n < 10000,
    ensures
        final(s)@ == old(s)@ + four_digits(n as int),
{
    push_two_digits(s, n / 100);
    push_two_digits(s, n % 100);
    assert(final(s)@ =~= old(s)@ + four_digits(n as int));
}

/// Relies on chrono's `From<SystemTime>` for `DateTime<Local>`, applied to
/// the system time now (a time before 1970 is converted too), and on the
/// `Datelike` / `Timelike` getters of the result: local year, month (1 to 12),
/// day of month (1 to 31), hour (0 to 23), minute (0 to 59) and second (0 to
/// 59; a leap second is carried in the nanoseconds).
#[verifier::external_body]
fn read_local_clock() -> (r: (i32, u32, u32, u32, u32, u32))
    ensures
        1 <= r.1 <= 12,
        1 <= r.2 <= 31,
        r.3 < 24,
        r.4 < 60,
        r.5 < 60,
{
    let now = chrono::DateTime::<chrono::Local>::from(std::time::SystemTime::now());
    (now.year(), now.month(), now.day(), now.hour(), now.minute(), now.second())
}

/// The local time now; `None` where the clock reads a year outside 0 to 9999,
/// which the four-digit names on disk cannot hold.
pub fn local_now() -> (r: Option<Timestamp>)
    ensures
        r matches Some(t) ==> t.wf(),
{
    let (year, month, day, hour, minute, second) = read_local_clock();
    Timestamp::new(year, month, day, hour, minute, second)
}

} // verus!
