use vstd::prelude::*;
use vstd::string::StringExecFns;

use crate::date::{day_to_yomi, day_yomi, month_to_yomi, month_yomi, positive_year_to_yomi, year_yomi};
use crate::error::DomainViolation;
use crate::time::{hour_to_yomi, hour_yomi, minute_to_yomi, minute_yomi, sec_to_yomi, second_yomi};
use crate::weekday::{weekday_to_yomi, weekday_yomi, Weekday};

verus! {

/// One calendar moment, decomposed into the fields that are read aloud.
#[derive(Debug, Clone, Copy, PartialEq, Eq, Structural)]
pub struct CalendarMoment {
    pub year: u32,
    pub month: u32,
    pub day: u32,
    pub weekday: Weekday,
    pub hour: u32,
    pub minute: u32,
    pub second: u32,
}

impl CalendarMoment {
    /// Every field lies in its declared range.
    pub open spec fn wf(&self) -> bool {
        &&& 1 <= self.year <= 9999
        &&& 1 <= self.month <= 12
        &&& 1 <= self.day <= 31
        &&& self.hour <= 23
        &&& self.minute <= 59
        &&& self.second <= 59
    }

    /// The first field, in reading order, that lies outside its range.
    pub open spec fn first_violation(&self) -> Option<DomainViolation> {
        if !(1 <= self.year <= 9999) {
            Some(DomainViolation::Year)
        } else if !(1 <= self.month <= 12) {
            Some(DomainViolation::Month)
        } else if !(1 <= self.day <= 31) {
            Some(DomainViolation::Day)
        } else if self.hour > 23 {
            Some(DomainViolation::Hour)
        } else if self.minute > 59 {
            Some(DomainViolation::Minute)
        } else if self.second > 59 {
            Some(DomainViolation::Second)
        } else {
            None
        }
    }
}

/// The reading of a whole moment: the readings of year, month, day,
/// weekday, hour, minute and second, in that order, joined by single spaces.
pub open spec fn moment_yomi(t: CalendarMoment) -> Seq<char> {
    year_yomi(t.year as int) + " "@ + month_yomi(t.month as int) + " "@ + day_yomi(t.day as int)
        + " "@ + weekday_yomi(t.weekday) + " "@ + hour_yomi(t.hour as int) + " "@ + minute_yomi(
        t.minute as int,
    ) + " "@ + second_yomi(t.second as int)
}

/// Renders a whole moment. A field outside its range makes the call fail
/// with the first such field in reading order.
pub fn format_datetime(t: &CalendarMoment) -> (r: Result<String, DomainViolation>)
    ensures
        r is Ok <==> t.wf(),
        r matches Ok(s) ==> s@ == moment_yomi(*t),
        r matches Err(e) ==> t.first_violation() == Some(e),
{
    let dy = positive_year_to_yomi(t.year)?;
    let dm = month_to_yomi(t.month)?;
    let dd = day_to_yomi(t.day)?;
    let dw = weekday_to_yomi(t.weekday);
    let th = hour_to_yomi(t.hour)?;
    let tm = minute_to_yomi(t.minute)?;
    let ts = sec_to_yomi(t.second)?;
    let mut s = dy;
    s.append(" ");
    s.append(dm.as_str());
    s.append(" ");
    s.append(dd.as_str());
    s.append(" ");
    s.append(dw);
    s.append(" ");
    s.append(th.as_str());
    s.append(" ");
    s.append(tm.as_str());
    s.append(" ");
    s.append(ts.as_str());
    Ok(s)
}

} // verus!
