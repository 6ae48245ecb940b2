//! Decimal rendering of clock fields, and the snapshot of one instant in
//! exactly the string shapes the query protocol asks for: a six-digit
//! year-and-month, day and hour without leading zeros, and the minute split
//! into its tens and ones digit characters.

use vstd::prelude::*;
use vstd::string::StringExecFns;

verus! {

/// The decimal digit character for a value below ten.
pub open spec fn digit_char(d: nat) -> char {
    if d == 0 {
        '0'
    } else if d == 1 {
        '1'
    } else if d == 2 {
        '2'
    } else if d == 3 {
        '3'
    } else if d == 4 {
        '4'
    } else if d == 5 {
        '5'
    } else if d == 6 {
        '6'
    } else if d == 7 {
        '7'
    } else if d == 8 {
        '8'
    } else {
        '9'
    }
}

/// The decimal rendering of `n` without leading zeros (`0` renders as "0").
pub open spec fn dec_digits(n: nat) -> Seq<char>
    decreases n,
{
    if n < 10 {
        seq![digit_char(n)]
    } else {
        dec_digits(n / 10).push(digit_char(n % 10))
    }
}

/// The two-digit zero-padded rendering of the last two decimal digits of `n`.
pub open spec fn pad2_digits(n: nat) -> Seq<char> {
    seq![digit_char(n / 10 % 10), digit_char(n % 10)]
}

/// The four-digit zero-padded rendering of the last four decimal digits of `n`.
pub open spec fn pad4_digits(n: nat) -> Seq<char> {
    seq![
        digit_char(n / 1000 % 10),
        digit_char(n / 100 % 10),
        digit_char(n / 10 % 10),
        digit_char(n % 10),
    ]
}

/// The digit character for `d`, as executable code.
pub fn digit_char_exec(d: u32) -> (r: char)
    requires
        d < 10,
    ensures
        r == digit_char(d as nat),
{
    if d == 0 {
        '0'
    } else if d == 1 {
        '1'
    } else if d == 2 {
        '2'
    } else if d == 3 {
        '3'
    } else if d == 4 {
        '4'
    } else if d == 5 {
        '5'
    } else if d == 6 {
        '6'
    } else if d == 7 {
        '7'
    } else if d == 8 {
        '8'
    } else {
        '9'
    }
}

/// The one-character string for a digit.
fn digit_str(d: u32) -> (r: &'static str)
    requires
        d < 10,
    ensures
        r@ == seq![digit_char(d as nat)],
{
    proof {
        reveal_strlit("0");
        reveal_strlit("1");
        reveal_strlit("2");
        reveal_strlit("3");
        reveal_strlit("4");
        reveal_strlit("5");
        reveal_strlit("6");
        reveal_strlit("7");
        reveal_strlit("8");
        reveal_strlit("9");
    }
    let r = if d == 0 {
        "0"
    } else if d == 1 {
        "1"
    } else if d == 2 {
        "2"
    } else if d == 3 {
        "3"
    } else if d == 4 {
        "4"
    } else if d == 5 {
        "5"
    } else if d == 6 {
        "6"
    } else if d == 7 {
        "7"
    } else if d == 8 {
        "8"
    } else {
        "9"
    };
    proof {
        assert(r@ =~= seq![digit_char(d as nat)]);
    }
    r
}

/// The decimal rendering of `n` without leading zeros.
pub fn u32_to_dec(n: u32) -> (r: String)
    ensures
        r@ == dec_digits(n as nat),
    decreases n,
{
    if n < 10 {
        digit_str(n).to_owned()
    } else {
        let mut s = u32_to_dec(n / 10);
        s.append(digit_str(n % 10));
        proof {
            assert(s@ =~= dec_digits(n as nat));
        }
        s
    }
}

/// The two-digit zero-padded rendering of `n`, for `n` below one hundred.
pub fn u32_to_pad2(n: u32) -> (r: String)
    requires
        n < 100,
    ensures
        r@ == pad2_digits(n as nat),
{
    let mut s = digit_str(n / 10).to_owned();
    s.append(digit_str(n % 10));
    proof {
        assert(s@ =~= pad2_digits(n as nat));
    }
    s
}

/// The four-digit zero-padded rendering of `n`, for `n` below ten thousand.
pub fn u32_to_pad4(n: u32) -> (r: String)
    requires
        n < 10000,
    ensures
        r@ == pad4_digits(n as nat),
{
    let mut s = digit_str(n / 1000).to_owned();
    s.append(digit_str(n / 100 % 10));
    s.append(digit_str(n / 10 % 10));
    s.append(digit_str(n % 10));
    proof {
        assert(s@ =~= pad4_digits(n as nat));
    }
    s
}

/// The string fields one captured instant decomposes into.
pub struct TimeSnapshot {
    /// Six digits: four-digit year then two-digit month.
    pub year_month: String,
    /// Day of the month, no leading zero.
    pub day: String,
    /// Hour of the day, no leading zero.
    pub hour: String,
    /// Tens digit of the zero-padded two-digit minute.
    pub min_tens: char,
    /// Ones digit of the zero-padded two-digit minute.
    pub min_ones: char,
}

/// The mathematical image of a snapshot: its fields as character sequences.
#[verifier::ext_equal]
pub struct TimeSnapshotV {
    pub year_month: Seq<char>,
    pub day: Seq<char>,
    pub hour: Seq<char>,
    pub min_tens: char,
    pub min_ones: char,
}

impl View for TimeSnapshot {
    type V = TimeSnapshotV;

    open spec fn view(&self) -> TimeSnapshotV {
        TimeSnapshotV {
            year_month: self.year_month@,
            day: self.day@,
            hour: self.hour@,
            min_tens: self.min_tens,
            min_ones: self.min_ones,
        }
    }
}

/// The ranges the clock fields move in: a four-digit year, calendar month
/// and day, and an hour and minute of one day.
pub open spec fn valid_parts(y: nat, mo: nat, d: nat, h: nat, mi: nat) -> bool {
    y <= 9999 && 1 <= mo <= 12 && 1 <= d <= 31 && h <= 23 && mi <= 59
}

/// The snapshot an instant with the given fields decomposes into.
pub open spec fn snapshot_of(y: nat, mo: nat, d: nat, h: nat, mi: nat) -> TimeSnapshotV {
    TimeSnapshotV {
        year_month: pad4_digits(y) + pad2_digits(mo),
        day: dec_digits(d),
        hour: dec_digits(h),
        min_tens: digit_char(mi / 10 % 10),
        min_ones: digit_char(mi % 10),
    }
}

impl TimeSnapshot {
    /// A snapshot is well formed when it is the decomposition of some
    /// instant whose fields lie in the clock's ranges.
    pub open spec fn wf(&self) -> bool {
        exists|y: nat, mo: nat, d: nat, h: nat, mi: nat|
            valid_parts(y, mo, d, h, mi) && self@ == #[trigger] snapshot_of(y, mo, d, h, mi)
    }

    /// Decomposes one instant, given as plain clock fields, into the string
    /// shapes the query protocol asks for.
    pub fn from_parts(year: u32, month: u32, day: u32, hour: u32, minute: u32) -> (r:
        TimeSnapshot)
        requires
            valid_parts(year as nat, month as nat, day as nat, hour as nat, minute as nat),
        ensures
            r@ == snapshot_of(year as nat, month as nat, day as nat, hour as nat, minute as nat),
            r.wf(),
    {
        let mut ym = u32_to_pad4(year);
        let mo = u32_to_pad2(month);
        ym.append(mo.as_str());
        let r = TimeSnapshot {
            year_month: ym,
            day: u32_to_dec(day),
            hour: u32_to_dec(hour),
            min_tens: digit_char_exec(minute / 10),
            min_ones: digit_char_exec(minute % 10),
        };
        proof {
            assert(r@ =~= snapshot_of(
                year as nat,
                month as nat,
                day as nat,
                hour as nat,
                minute as nat,
            ));
        }
        r
    }

    /// Decomposes the clock's raw fields. A snapshot results exactly when
    /// the year fits the four digits the protocol's `year_month` carries;
    /// every other field the clock already bounds.
    pub fn from_clock(year: i64, month: u32, day: u32, hour: u32, minute: u32) -> (r: Option<
        TimeSnapshot,
    >)
        requires
            1 <= month <= 12,
            1 <= day <= 31,
            hour <= 23,
            minute <= 59,
        ensures
            r is Some <==> 0 <= year <= 9999,
            r matches Some(t) ==> t@ == snapshot_of(
                year as nat,
                month as nat,
                day as nat,
                hour as nat,
                minute as nat,
            ) && t.wf(),
    {
        if 0 <= year && year <= 9999 {
            Some(TimeSnapshot::from_parts(year as u32, month, day, hour, minute))
        } else {
            None
        }
    }

    /// Captures the current wall-clock instant. The decision and the
    /// decomposition are `from_clock`'s, on whatever fields the clock
    /// reports: `None` only when the clock's year leaves the four-digit
    /// range the protocol can carry.
    pub fn now() -> (r: Option<TimeSnapshot>)
        ensures
            r matches Some(t) ==> t.wf(),
    {
        let (y, mo, d, h, mi) = local_now_parts();
        TimeSnapshot::from_clock(y, mo, d, h, mi)
    }
}

/// Law: for any captured instant, the tens digit character followed by the
/// ones digit character equals the zero-padded two-digit minute of that
/// instant.
pub proof fn lemma_minute_round_trip(y: nat, mo: nat, d: nat, h: nat, mi: nat)
    requires
        valid_parts(y, mo, d, h, mi),
    ensures
        seq![snapshot_of(y, mo, d, h, mi).min_tens, snapshot_of(y, mo, d, h, mi).min_ones]
            == pad2_digits(mi),
{
    assert(seq![snapshot_of(y, mo, d, h, mi).min_tens, snapshot_of(y, mo, d, h, mi).min_ones]
        =~= pad2_digits(mi));
}

/// Relies on chrono's `Local::now` and the `Datelike`/`Timelike` accessors,
/// whose documentation bounds the month to 1..=12, the day to 1..=31, the
/// hour to 0..=23 and the minute to 0..=59. The year is whatever the clock
/// reports. chrono itself panics on a system clock before the Unix epoch or
/// on broken time-zone data; those are environment faults no caller can
/// exclude.
#[verifier::external_body]
fn local_now_parts() -> (r: (i64, u32, u32, u32, u32))
    ensures
        1 <= r.1 <= 12,
        1 <= r.2 <= 31,
        r.3 <= 23,
        r.4 <= 59,
{
    let n = chrono::Local::now();
    (n.year() as i64, n.month(), n.day(), n.hour(), n.minute())
}

} // verus!

use chrono::Datelike;
use chrono::Timelike;
