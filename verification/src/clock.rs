//! Reading the local clock.
use vstd::prelude::*;

verus! {

/// An instant: whole seconds since the Unix epoch and the nanoseconds past that second.
#[derive(Clone, Copy)]
pub struct Moment {
    pub secs: i64,
    pub nanos: u32,
}

/// The instant as nanoseconds since the Unix epoch.
pub open spec fn moment_nanos(m: Moment) -> int {
    m.secs * 1_000_000_000 + m.nanos
}

/// Whether `c` is an ASCII decimal digit.
pub open spec fn is_digit(c: char) -> bool {
    '0' <= c <= '9'
}

/// Whether `t` has the shape of a `YYYY-MM-DD HH:MM:SS` date-time text: a year of four
/// digits (or a sign and at least four digits, for years past 9999), then two-digit
/// month, day, hour, minute and second, separated by `-`, `-`, a space, `:` and `:`.
pub open spec fn is_date_time_text(t: Seq<char>) -> bool {
    let k = t.len() - 15;
    &&& t.len() >= 19
    &&& (k == 4 || (t[0] == '+' || t[0] == '-'))
    &&& forall|i: int| 0 <= i < k && !(i == 0 && k > 4) ==> is_digit(#[trigger] t[i])
    &&& t[k] == '-'
    &&& t[k + 3] == '-'
    &&& t[k + 6] == ' '
    &&& t[k + 9] == ':'
    &&& t[k + 12] == ':'
    &&& forall|j: int|
        0 <= j < 15 && j != 0 && j != 3 && j != 6 && j != 9 && j != 12 ==> is_digit(#[trigger] t[k + j])
}

/// Whether `m` is an instant the clock can give: at or after the Unix epoch, with a
/// sub-second part below one second.
pub open spec fn is_clock_moment(m: Moment) -> bool {
    m.secs >= 0 && m.nanos < 1_000_000_000
}

/// One reading of the local clock: the instant, and its local date-time text
/// (`YYYY-MM-DD HH:MM:SS`).
pub struct ClockReading {
    pub moment: Moment,
    pub text: String,
}

/// Calls `chrono::Local::now()` once and reads the instant from it (`timestamp`,
/// `timestamp_subsec_nanos`) and its `format("%Y-%m-%d %H:%M:%S")` text.
/// Claims only what holds of every reading: `Utc::now` takes the system time as a
/// duration since the Unix epoch (so whole seconds at or after it, and nanoseconds below
/// one second), and the format pads month, day, hour, minute and second to two digits
/// and the year to four (with a sign beyond that). Which instant it is, and the text's
/// relation to it (which rests on the machine's time zone), is left unsaid.
#[verifier::external_body]
pub(crate) fn clock_now() -> (res: ClockReading)
    ensures
        is_clock_moment(res.moment),
        is_date_time_text(res.text@),
{
    let now = chrono::Local::now();
    ClockReading {
        moment: Moment { secs: now.timestamp(), nanos: now.timestamp_subsec_nanos() },
        text: now.format("%Y-%m-%d %H:%M:%S").to_string(),
    }
}

} // verus!
