//! Plain value types for the clock's time, date and timestamp fields.

use vstd::prelude::*;

verus! {

/// Hours in either 12-hour or 24-hour format
#[derive(Debug, Clone, Copy, PartialEq, Eq, Structural)]
pub enum Hours {
    /// AM hour of a 12-hour clock [1-12]
    AM(u8),
    /// PM hour of a 12-hour clock [1-12]
    PM(u8),
    /// Hour of a 24-hour clock [0-23]
    H24(u8),
}

/// Time of day in 24-hour format
#[derive(Debug, Clone, Copy, PartialEq, Eq, Structural)]
pub struct Time {
    /// Hour [0-23]
    pub hour: u8,
    /// Minute [0-59]
    pub minute: u8,
    /// Second [0-59]
    pub second: u8,
}

/// Calendar date, including the chip's free-running weekday counter
#[derive(Debug, Clone, Copy, PartialEq, Eq, Structural)]
pub struct Date {
    /// Year [2000-2100]
    pub year: u16,
    /// Month [1-12]
    pub month: u8,
    /// Day of the month [1-31]
    pub day: u8,
    /// Day of the week [1-7], in any consistent numbering
    pub weekday: u8,
}

/// Full calendar timestamp
#[derive(Debug, Clone, Copy, PartialEq, Eq, Structural)]
pub struct DateTime {
    /// Year [2000-2100]
    pub year: u16,
    /// Month [1-12]
    pub month: u8,
    /// Day of the month [1-31]
    pub day: u8,
    /// Day of the week [1-7], in any consistent numbering
    pub weekday: u8,
    /// Hour, in the 12-hour or 24-hour format the chip should run in
    pub hour: Hours,
    /// Minute [0-59]
    pub minute: u8,
    /// Second [0-59]
    pub second: u8,
}

/// An hour value lies in the legal range of its variant.
pub open spec fn hours_valid(hours: Hours) -> bool {
    match hours {
        Hours::AM(h) => 1 <= h <= 12,
        Hours::PM(h) => 1 <= h <= 12,
        Hours::H24(h) => h <= 23,
    }
}

/// Every field of a time lies in its legal range.
pub open spec fn time_valid(time: Time) -> bool {
    &&& time.hour <= 23
    &&& time.minute <= 59
    &&& time.second <= 59
}

/// Every field of a date lies in its legal range.
pub open spec fn date_valid(date: Date) -> bool {
    &&& 2000 <= date.year <= 2100
    &&& 1 <= date.month <= 12
    &&& 1 <= date.day <= 31
    &&& 1 <= date.weekday <= 7
}

/// Every field of a timestamp lies in its legal range.
pub open spec fn datetime_valid(datetime: DateTime) -> bool {
    &&& 2000 <= datetime.year <= 2100
    &&& 1 <= datetime.month <= 12
    &&& 1 <= datetime.day <= 31
    &&& 1 <= datetime.weekday <= 7
    &&& hours_valid(datetime.hour)
    &&& datetime.minute <= 59
    &&& datetime.second <= 59
}

} // verus!
