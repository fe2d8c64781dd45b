//! A local wall-clock timestamp broken into plain fields, and the
//! verified construction of the timestamped backup file name.

use vstd::prelude::*;
use vstd::string::StringExecFns;
use chrono::Datelike;
use chrono::Timelike;

use crate::numfmt::dec_rep;
use crate::numfmt::fixed_width;
use crate::numfmt::push_dec;
use crate::numfmt::push_fixed;

verus! {

/// A point of local wall-clock time, as the six fields that appear
/// in the backup file name.
#[derive(Clone, Copy, Debug, PartialEq, Eq, Structural)]
pub struct Timestamp {
    /// Calendar year (proleptic Gregorian; may be negative).
    pub year: i32,
    /// Month of the year, 1 through 12.
    pub month: u32,
    /// Day of the month, 1 through 31.
    pub day: u32,
    /// Hour of the day, 0 through 23.
    pub hour: u32,
    /// Minute of the hour, 0 through 59.
    pub minute: u32,
    /// Second of the minute, 0 through 59.
    pub second: u32,
}

impl Timestamp {
    /// The field ranges of a calendar timestamp.
    pub open spec fn wf(self) -> bool {
        &&& 1 <= self.month <= 12
        &&& 1 <= self.day <= 31
        &&& self.hour <= 23
        &&& self.minute <= 59
        &&& self.second <= 59
    }
}

/// The year field of the file name: at least four digits, zero-padded,
/// with a leading minus sign for years before year zero.
pub open spec fn year_rep(y: int) -> Seq<char> {
    if 0 <= y < 10000 {
        fixed_width(y as nat, 4)
    } else if y >= 10000 {
        dec_rep(y as nat)
    } else if -10000 < y {
        seq!['-'] + fixed_width((-y) as nat, 4)
    } else {
        seq!['-'] + dec_rep((-y) as nat)
    }
}

/// The name under which a backup taken at time `ts` is written:
/// `actualbudget_backup_<YYYY-MM-DD_HH-MM-SS>.zip`.
pub open spec fn spec_backup_filename(ts: Timestamp) -> Seq<char> {
    "actualbudget_backup_"@ + year_rep(ts.year as int) + "-"@ + fixed_width(ts.month as nat, 2)
        + "-"@ + fixed_width(ts.day as nat, 2) + "_"@ + fixed_width(ts.hour as nat, 2) + "-"@
        + fixed_width(ts.minute as nat, 2) + "-"@ + fixed_width(ts.second as nat, 2) + ".zip"@
}

/// Appends the year field: four zero-padded digits for years 0
/// through 9999, the full digit string beyond, a minus sign first
/// for negative years.
fn push_year(s: &mut String, y: i32)
    ensures
        final(s)@ == old(s)@ + year_rep(y as int),
{
    if 0 <= y && y < 10000 {
        push_fixed(s, y as u32, 4);
    } else if y >= 10000 {
        push_dec(s, y as u32);
    } else {
        s.append("-");
        let mag64: i64 = -(y as i64);
        let mag: u32 = mag64 as u32;
        proof {
            reveal_strlit("-");
            assert(mag == -(y as int));
        }
        if mag < 10000 {
            push_fixed(s, mag, 4);
        } else {
            push_dec(s, mag);
        }
        proof {
            assert(s@ =~= old(s)@ + year_rep(y as int));
        }
    }
}

/// Builds the backup file name for the timestamp `ts`.
pub fn backup_filename(ts: &Timestamp) -> (r: String)
    ensures
        r@ == spec_backup_filename(*ts),
{
    let mut s = String::new();
    s.append("actualbudget_backup_");
    push_year(&mut s, ts.year);
    s.append("-");
    push_fixed(&mut s, ts.month, 2);
    s.append("-");
    push_fixed(&mut s, ts.day, 2);
    s.append("_");
    push_fixed(&mut s, ts.hour, 2);
    s.append("-");
    push_fixed(&mut s, ts.minute, 2);
    s.append("-");
    push_fixed(&mut s, ts.second, 2);
    s.append(".zip");
    proof {
        assert(s@ =~= spec_backup_filename(*ts));
    }
    s
}

/// Relies on chrono's `Local::now` and on the `Datelike` and
/// `Timelike` accessors (`year`, `month`, `day`, `hour`, `minute`,
/// `second`): chrono documents month as 1..=12, day as 1..=31, hour
/// as 0..=23, minute and second as 0..=59. Nothing more is assumed
/// of the clock's value.
#[verifier::external_body]
pub(crate) fn local_now() -> (t: Timestamp)
    ensures
        t.wf(),
{
    let now = chrono::Local::now();
    Timestamp {
        year: now.year(),
        month: now.month(),
        day: now.day(),
        hour: now.hour(),
        minute: now.minute(),
        second: now.second(),
    }
}

} // verus!
