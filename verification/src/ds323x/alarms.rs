//! Alarm support.
//!
//! Both alarm channels follow the lenient field policy: a field the chosen
//! matching mode does not consume is never rejected; it is normalized to
//! its minimum legal value instead (day and weekday to 1, hour to the
//! variant's minimum, minute and second to 0). A field the mode does
//! consume must be in range or the whole call is rejected before anything
//! is issued on the bus.

use vstd::prelude::*;
use crate::bcd::{bcd_encode, decimal_to_packed_bcd};
use crate::ds323x::{hours_encode, hours_to_register};
use crate::types::{hours_valid, time_valid, Hours, Time};
use crate::{bitflags, register, Ds323x, Error, ReadData, WriteData};

verus! {

/// Parameters for setting Alarm1 on a day of the month
#[derive(Debug, Clone, Copy, PartialEq, Eq, Structural)]
pub struct DayAlarm1 {
    /// Day of the month [1-31]
    pub day: u8,
    /// Hour
    pub hour: Hours,
    /// Minute [0-59]
    pub minute: u8,
    /// Second [0-59]
    pub second: u8,
}

/// Parameters for setting Alarm1 on a weekday
#[derive(Debug, Clone, Copy, PartialEq, Eq, Structural)]
pub struct WeekdayAlarm1 {
    /// Weekday [1-7]
    pub weekday: u8,
    /// Hour
    pub hour: Hours,
    /// Minute [0-59]
    pub minute: u8,
    /// Second [0-59]
    pub second: u8,
}

/// Alarm1 trigger rate
#[derive(Debug, Clone, Copy, PartialEq, Eq, Structural)]
pub enum Alarm1Matching {
    /// Alarm once per second.
    OncePerSecond,
    /// Alarm when seconds match.
    SecondsMatch,
    /// Alarm when minutes and seconds match.
    MinutesAndSecondsMatch,
    /// Alarm when hours, minutes and seconds match.
    HoursMinutesAndSecondsMatch,
    /// Alarm when date/weekday, hours, minutes and seconds match.
    AllMatch,
}

/// Parameters for setting Alarm2 on a day of the month
#[derive(Debug, Clone, Copy, PartialEq, Eq, Structural)]
pub struct DayAlarm2 {
    /// Day of month [1-31]
    pub day: u8,
    /// Hour
    pub hour: Hours,
    /// Minute [0-59]
    pub minute: u8,
}

/// Parameters for setting Alarm2 on a weekday
#[derive(Debug, Clone, Copy, PartialEq, Eq, Structural)]
pub struct WeekdayAlarm2 {
    /// Weekday [1-7]
    pub weekday: u8,
    /// Hour
    pub hour: Hours,
    /// Minute [0-59]
    pub minute: u8,
}

/// Alarm2 trigger rate
#[derive(Debug, Clone, Copy, PartialEq, Eq, Structural)]
pub enum Alarm2Matching {
    /// Alarm once per minute. (00 seconds of every minute)
    OncePerMinute,
    /// Alarm when minutes match.
    MinutesMatch,
    /// Alarm when hours and minutes match.
    HoursAndMinutesMatch,
    /// Alarm when date/weekday, hours and minutes match.
    AllMatch,
}

/// Per-register ignore-bit mask of an Alarm1 matching mode: one byte for
/// each of the seconds, minutes, hours and day registers; a set bit tells
/// the chip to ignore that field.
pub open spec fn alarm1_mask(matching: Alarm1Matching) -> Seq<u8> {
    match matching {
        Alarm1Matching::OncePerSecond => seq![
            bitflags::ALARM_MATCH,
            bitflags::ALARM_MATCH,
            bitflags::ALARM_MATCH,
            bitflags::ALARM_MATCH,
        ],
        Alarm1Matching::SecondsMatch => seq![
            0u8,
            bitflags::ALARM_MATCH,
            bitflags::ALARM_MATCH,
            bitflags::ALARM_MATCH,
        ],
        Alarm1Matching::MinutesAndSecondsMatch => seq![
            0u8,
            0u8,
            bitflags::ALARM_MATCH,
            bitflags::ALARM_MATCH,
        ],
        Alarm1Matching::HoursMinutesAndSecondsMatch => seq![
            0u8,
            0u8,
            0u8,
            bitflags::ALARM_MATCH,
        ],
        Alarm1Matching::AllMatch => seq![0u8, 0u8, 0u8, 0u8],
    }
}

/// Per-register ignore-bit mask of an Alarm2 matching mode: one byte for
/// each of the minutes, hours and day registers.
pub open spec fn alarm2_mask(matching: Alarm2Matching) -> Seq<u8> {
    match matching {
        Alarm2Matching::OncePerMinute => seq![
            bitflags::ALARM_MATCH,
            bitflags::ALARM_MATCH,
            bitflags::ALARM_MATCH,
        ],
        Alarm2Matching::MinutesMatch => seq![0u8, bitflags::ALARM_MATCH, bitflags::ALARM_MATCH],
        Alarm2Matching::HoursAndMinutesMatch => seq![0u8, 0u8, bitflags::ALARM_MATCH],
        Alarm2Matching::AllMatch => seq![0u8, 0u8, 0u8],
    }
}

/// Number of alarm fields an Alarm1 matching mode tells the chip to
/// ignore.
pub open spec fn alarm1_ignored_fields(matching: Alarm1Matching) -> int {
    match matching {
        Alarm1Matching::OncePerSecond => 4,
        Alarm1Matching::SecondsMatch => 3,
        Alarm1Matching::MinutesAndSecondsMatch => 2,
        Alarm1Matching::HoursMinutesAndSecondsMatch => 1,
        Alarm1Matching::AllMatch => 0,
    }
}

/// Number of alarm fields an Alarm2 matching mode tells the chip to
/// ignore.
pub open spec fn alarm2_ignored_fields(matching: Alarm2Matching) -> int {
    match matching {
        Alarm2Matching::OncePerMinute => 3,
        Alarm2Matching::MinutesMatch => 2,
        Alarm2Matching::HoursAndMinutesMatch => 1,
        Alarm2Matching::AllMatch => 0,
    }
}

/// The ignore-bit masks of Alarm1 are monotone: the coarsest mode sets all
/// four ignore bits; each stricter mode clears exactly one more, in the
/// order second, minute, hour, day; the strictest mode sets none.
pub proof fn lemma_alarm1_mask_monotonic(matching: Alarm1Matching)
    ensures
        alarm1_mask(matching).len() == 4,
        forall|i: int|
            0 <= i < 4 ==> alarm1_mask(matching)[i] == if i < 4 - alarm1_ignored_fields(matching) {
                0u8
            } else {
                bitflags::ALARM_MATCH
            },
{
}

/// The ignore-bit masks of Alarm2 are monotone: the coarsest mode sets all
/// three ignore bits; each stricter mode clears exactly one more, in the
/// order minute, hour, day; the strictest mode sets none.
pub proof fn lemma_alarm2_mask_monotonic(matching: Alarm2Matching)
    ensures
        alarm2_mask(matching).len() == 3,
        forall|i: int|
            0 <= i < 3 ==> alarm2_mask(matching)[i] == if i < 3 - alarm2_ignored_fields(matching) {
                0u8
            } else {
                bitflags::ALARM_MATCH
            },
{
}

/// Get the ignore-bit mask bytes of an Alarm1 matching mode.
pub fn get_matching_mask_alarm1(matching: Alarm1Matching) -> (r: [u8; 4])
    ensures
        r@ == alarm1_mask(matching),
{
    let am: u8 = bitflags::ALARM_MATCH;
    let r: [u8; 4] = match matching {
        Alarm1Matching::OncePerSecond => [am, am, am, am],
        Alarm1Matching::SecondsMatch => [0, am, am, am],
        Alarm1Matching::MinutesAndSecondsMatch => [0, 0, am, am],
        Alarm1Matching::HoursMinutesAndSecondsMatch => [0, 0, 0, am],
        Alarm1Matching::AllMatch => [0, 0, 0, 0],
    };
    proof {
        assert(r@ =~= alarm1_mask(matching));
    }
    r
}

/// Get the ignore-bit mask bytes of an Alarm2 matching mode.
pub fn get_matching_mask_alarm2(matching: Alarm2Matching) -> (r: [u8; 3])
    ensures
        r@ == alarm2_mask(matching),
{
    let am: u8 = bitflags::ALARM_MATCH;
    let r: [u8; 3] = match matching {
        Alarm2Matching::OncePerMinute => [am, am, am],
        Alarm2Matching::MinutesMatch => [0, am, am],
        Alarm2Matching::HoursAndMinutesMatch => [0, 0, am],
        Alarm2Matching::AllMatch => [0, 0, 0],
    };
    proof {
        assert(r@ =~= alarm2_mask(matching));
    }
    r
}

/// Test if an hour value lies outside its variant's legal range.
pub fn is_hour_valid(hours: Hours) -> (r: bool)
    ensures
        r == !hours_valid(hours),
{
    match hours {
        Hours::H24(h) if h > 23 => true,
        Hours::AM(h) if h < 1 || h > 12 => true,
        Hours::PM(h) if h < 1 || h > 12 => true,
        _ => false,
    }
}

/// An out-of-range hour value normalized to its variant's minimum legal
/// value; a legal value is kept.
pub open spec fn amended_hour(hours: Hours) -> Hours {
    if hours_valid(hours) {
        hours
    } else {
        match hours {
            Hours::H24(_) => Hours::H24(0),
            Hours::AM(_) => Hours::AM(1),
            Hours::PM(_) => Hours::PM(1),
        }
    }
}

/// Amend invalid hour values
pub fn amend_hour(hours: Hours) -> (r: Hours)
    ensures
        r == amended_hour(hours),
        hours_valid(r),
{
    match hours {
        Hours::H24(h) if h > 23 => Hours::H24(0),
        Hours::H24(h) => Hours::H24(h),
        Hours::AM(h) if h < 1 || h > 12 => Hours::AM(1),
        Hours::AM(h) => Hours::AM(h),
        Hours::PM(h) if h < 1 || h > 12 => Hours::PM(1),
        Hours::PM(h) => Hours::PM(h),
    }
}

/// A day-based Alarm1 call is rejected: some field the matching mode
/// consumes is out of range.
pub open spec fn alarm1_day_rejected(when: DayAlarm1, matching: Alarm1Matching) -> bool {
    ||| (matching == Alarm1Matching::AllMatch && (!(1 <= when.day <= 31) || !hours_valid(
        when.hour,
    )))
    ||| (!hours_valid(when.hour) && matching == Alarm1Matching::HoursMinutesAndSecondsMatch)
    ||| (matching != Alarm1Matching::SecondsMatch && matching != Alarm1Matching::OncePerSecond
        && when.minute > 59)
    ||| (when.second > 59 && matching != Alarm1Matching::OncePerSecond)
}

/// Burst-write payload configuring a day-based Alarm1: the first alarm
/// register address, then the second, minute, hour and day fields, each
/// normalized if unused, encoded and carrying its mode's ignore bit.
pub open spec fn alarm1_day_payload(when: DayAlarm1, matching: Alarm1Matching) -> Seq<u8> {
    seq![
        register::ALARM1_SECONDS,
        bcd_encode(if when.second > 59 { 0u8 } else { when.second }) | alarm1_mask(matching)[0],
        bcd_encode(if when.minute > 59 { 0u8 } else { when.minute }) | alarm1_mask(matching)[1],
        hours_encode(amended_hour(when.hour)) | alarm1_mask(matching)[2],
        bcd_encode(if !(1 <= when.day <= 31) { 1u8 } else { when.day }) | alarm1_mask(matching)[3],
    ]
}

/// A weekday-based Alarm1 call is rejected: some field the matching mode
/// consumes is out of range.
pub open spec fn alarm1_weekday_rejected(when: WeekdayAlarm1, matching: Alarm1Matching) -> bool {
    ||| ((!hours_valid(when.hour) || !(1 <= when.weekday <= 7)) && matching
        == Alarm1Matching::AllMatch)
    ||| (!hours_valid(when.hour) && matching == Alarm1Matching::HoursMinutesAndSecondsMatch)
    ||| (when.minute > 59 && matching != Alarm1Matching::OncePerSecond && matching
        != Alarm1Matching::SecondsMatch)
    ||| (when.second > 59 && matching != Alarm1Matching::OncePerSecond)
}

/// Burst-write payload configuring a weekday-based Alarm1; the weekday
/// register carries the day/weekday selector bit.
pub open spec fn alarm1_weekday_payload(when: WeekdayAlarm1, matching: Alarm1Matching) -> Seq<
    u8,
> {
    seq![
        register::ALARM1_SECONDS,
        bcd_encode(if when.second > 59 { 0u8 } else { when.second }) | alarm1_mask(matching)[0],
        bcd_encode(if when.minute > 59 { 0u8 } else { when.minute }) | alarm1_mask(matching)[1],
        hours_encode(amended_hour(when.hour)) | alarm1_mask(matching)[2],
        bcd_encode(if !(1 <= when.weekday <= 7) { 1u8 } else { when.weekday }) | alarm1_mask(
            matching,
        )[3] | bitflags::WEEKDAY,
    ]
}

/// A day-based Alarm2 call is rejected: some field the matching mode
/// consumes is out of range.
pub open spec fn alarm2_day_rejected(when: DayAlarm2, matching: Alarm2Matching) -> bool {
    ||| ((!(1 <= when.day <= 31) || !hours_valid(when.hour)) && matching
        == Alarm2Matching::AllMatch)
    ||| (!hours_valid(when.hour) && matching == Alarm2Matching::HoursAndMinutesMatch)
    ||| (matching != Alarm2Matching::OncePerMinute && when.minute > 59)
}

/// Burst-write payload configuring a day-based Alarm2: the first alarm
/// register address, then the minute, hour and day fields.
pub open spec fn alarm2_day_payload(when: DayAlarm2, matching: Alarm2Matching) -> Seq<u8> {
    seq![
        register::ALARM2_MINUTES,
        bcd_encode(if when.minute > 59 { 0u8 } else { when.minute }) | alarm2_mask(matching)[0],
        hours_encode(amended_hour(when.hour)) | alarm2_mask(matching)[1],
        bcd_encode(if !(1 <= when.day <= 31) { 1u8 } else { when.day }) | alarm2_mask(matching)[2],
    ]
}

/// A weekday-based Alarm2 call is rejected: some field the matching mode
/// consumes is out of range.
pub open spec fn alarm2_weekday_rejected(when: WeekdayAlarm2, matching: Alarm2Matching) -> bool {
    ||| (matching == Alarm2Matching::AllMatch && (!(1 <= when.weekday <= 7) || !hours_valid(
        when.hour,
    )))
    ||| (matching == Alarm2Matching::HoursAndMinutesMatch && !hours_valid(when.hour))
    ||| (when.minute > 59 && matching != Alarm2Matching::OncePerMinute)
}

/// Burst-write payload configuring a weekday-based Alarm2; the weekday
/// register carries the day/weekday selector bit.
pub open spec fn alarm2_weekday_payload(when: WeekdayAlarm2, matching: Alarm2Matching) -> Seq<
    u8,
> {
    seq![
        register::ALARM2_MINUTES,
        bcd_encode(if when.minute > 59 { 0u8 } else { when.minute }) | alarm2_mask(matching)[0],
        hours_encode(amended_hour(when.hour)) | alarm2_mask(matching)[1],
        bcd_encode(if !(1 <= when.weekday <= 7) { 1u8 } else { when.weekday }) | alarm2_mask(
            matching,
        )[2] | bitflags::WEEKDAY,
    ]
}

impl<DI, IC, E> Ds323x<DI, IC> where
    DI: ReadData<Error = Error<E>> + WriteData<Error = Error<E>>,
 {
    /// Set Alarm1 for day of the month.
    ///
    /// Will return an `Error::InvalidInputData`, before anything is issued
    /// on the bus, if a parameter the matching strategy uses is out of
    /// range. Any unused parameter is set to the corresponding minimum
    /// valid value: second, minute, hour to 0, day to 1.
    pub fn set_alarm1_day(&mut self, when: DayAlarm1, matching: Alarm1Matching) -> (r: Result<
        (),
        Error<E>,
    >)
        ensures
            final(self).caches_unchanged(*old(self)),
            alarm1_day_rejected(when, matching) ==> r == Err::<(), Error<E>>(
                Error::InvalidInputData,
            ) && *final(self) == *old(self),
            !alarm1_day_rejected(when, matching) && (r matches Ok(_)) ==> final(self).wrote_burst(
                *old(self),
                alarm1_day_payload(when, matching),
            ),
    {
        let day_invalid = when.day < 1 || when.day > 31;
        let hour_invalid = is_hour_valid(when.hour);
        let minute_invalid = when.minute > 59;
        let second_invalid = when.second > 59;

        let day = if day_invalid { 1 } else { when.day };
        let hour = amend_hour(when.hour);
        let minute = if minute_invalid { 0 } else { when.minute };
        let second = if second_invalid { 0 } else { when.second };

        if (matching == Alarm1Matching::AllMatch && (day_invalid || hour_invalid)) || (hour_invalid
            && matching == Alarm1Matching::HoursMinutesAndSecondsMatch) || ((matching
            != Alarm1Matching::SecondsMatch && matching != Alarm1Matching::OncePerSecond)
            && minute_invalid) || (second_invalid && matching != Alarm1Matching::OncePerSecond) {
            return Err(Error::InvalidInputData);
        }
        let match_mask = get_matching_mask_alarm1(matching);
        let hour_reg = hours_to_register(hour)?;
        let payload: Vec<u8> = vec![
            register::ALARM1_SECONDS,
            decimal_to_packed_bcd(second) | match_mask[0],
            decimal_to_packed_bcd(minute) | match_mask[1],
            hour_reg | match_mask[2],
            decimal_to_packed_bcd(day) | match_mask[3],
        ];
        proof {
            assert(payload@ =~= alarm1_day_payload(when, matching));
        }
        self.iface.write_data(&payload)
    }

    /// Set Alarm1 for a time (fires when hours, minutes and seconds
    /// match). The day is not used by this matching strategy and is set
    /// to 1.
    ///
    /// Will return an `Error::InvalidInputData`, before anything is issued
    /// on the bus, if any field of the time is out of range.
    pub fn set_alarm1_hms(&mut self, when: Time) -> (r: Result<(), Error<E>>)
        ensures
            final(self).caches_unchanged(*old(self)),
            !time_valid(when) ==> r == Err::<(), Error<E>>(Error::InvalidInputData) && *final(self)
                == *old(self),
            time_valid(when) && (r matches Ok(_)) ==> final(self).wrote_burst(
                *old(self),
                alarm1_day_payload(
                    DayAlarm1 {
                        day: 1,
                        hour: Hours::H24(when.hour),
                        minute: when.minute,
                        second: when.second,
                    },
                    Alarm1Matching::HoursMinutesAndSecondsMatch,
                ),
            ),
    {
        let alarm = DayAlarm1 {
            day: 1,
            hour: Hours::H24(when.hour),
            minute: when.minute,
            second: when.second,
        };
        self.set_alarm1_day(alarm, Alarm1Matching::HoursMinutesAndSecondsMatch)
    }

    /// Set Alarm1 for weekday.
    ///
    /// Will return an `Error::InvalidInputData`, before anything is issued
    /// on the bus, if a parameter the matching strategy uses is out of
    /// range. Any unused parameter is set to the corresponding minimum
    /// valid value: second, minute, hour to 0, weekday to 1.
    pub fn set_alarm1_weekday(&mut self, when: WeekdayAlarm1, matching: Alarm1Matching) -> (r:
        Result<(), Error<E>>)
        ensures
            final(self).caches_unchanged(*old(self)),
            alarm1_weekday_rejected(when, matching) ==> r == Err::<(), Error<E>>(
                Error::InvalidInputData,
            ) && *final(self) == *old(self),
            !alarm1_weekday_rejected(when, matching) && (r matches Ok(_)) ==> final(self).wrote_burst(
                *old(self),
                alarm1_weekday_payload(when, matching),
            ),
    {
        let weekday_invalid = when.weekday < 1 || when.weekday > 7;
        let hour_invalid = is_hour_valid(when.hour);
        let minute_invalid = when.minute > 59;
        let second_invalid = when.second > 59;

        let weekday = if weekday_invalid { 1 } else { when.weekday };
        let hour = amend_hour(when.hour);
        let minute = if minute_invalid { 0 } else { when.minute };
        let second = if second_invalid { 0 } else { when.second };

        if ((hour_invalid || weekday_invalid) && matching == Alarm1Matching::AllMatch)
            || (hour_invalid && matching == Alarm1Matching::HoursMinutesAndSecondsMatch)
            || (minute_invalid && (matching != Alarm1Matching::OncePerSecond && matching
            != Alarm1Matching::SecondsMatch)) || (second_invalid && matching
            != Alarm1Matching::OncePerSecond) {
            return Err(Error::InvalidInputData);
        }
        let match_mask = get_matching_mask_alarm1(matching);
        let hour_reg = hours_to_register(hour)?;
        let payload: Vec<u8> = vec![
            register::ALARM1_SECONDS,
            decimal_to_packed_bcd(second) | match_mask[0],
            decimal_to_packed_bcd(minute) | match_mask[1],
            hour_reg | match_mask[2],
            decimal_to_packed_bcd(weekday) | match_mask[3] | bitflags::WEEKDAY,
        ];
        proof {
            assert(payload@ =~= alarm1_weekday_payload(when, matching));
        }
        self.iface.write_data(&payload)
    }

    /// Set Alarm2 for date (day of month).
    ///
    /// Will return an `Error::InvalidInputData`, before anything is issued
    /// on the bus, if a parameter the matching strategy uses is out of
    /// range. Any unused parameter is set to the corresponding minimum
    /// valid value: minute, hour to 0, day to 1.
    pub fn set_alarm2_day(&mut self, when: DayAlarm2, matching: Alarm2Matching) -> (r: Result<
        (),
        Error<E>,
    >)
        ensures
            final(self).caches_unchanged(*old(self)),
            alarm2_day_rejected(when, matching) ==> r == Err::<(), Error<E>>(
                Error::InvalidInputData,
            ) && *final(self) == *old(self),
            !alarm2_day_rejected(when, matching) && (r matches Ok(_)) ==> final(self).wrote_burst(
                *old(self),
                alarm2_day_payload(when, matching),
            ),
    {
        let day_invalid = when.day < 1 || when.day > 31;
        let hour_invalid = is_hour_valid(when.hour);
        let minute_invalid = when.minute > 59;

        let day = if day_invalid { 1 } else { when.day };
        let hour = amend_hour(when.hour);
        let minute = if minute_invalid { 0 } else { when.minute };

        if ((day_invalid || hour_invalid) && matching == Alarm2Matching::AllMatch) || (hour_invalid
            && matching == Alarm2Matching::HoursAndMinutesMatch) || (matching
            != Alarm2Matching::OncePerMinute && minute_invalid) {
            return Err(Error::InvalidInputData);
        }

        let match_mask = get_matching_mask_alarm2(matching);
        let hour_reg = hours_to_register(hour)?;
        let payload: Vec<u8> = vec![
            register::ALARM2_MINUTES,
            decimal_to_packed_bcd(minute) | match_mask[0],
            hour_reg | match_mask[1],
            decimal_to_packed_bcd(day) | match_mask[2],
        ];
        proof {
            assert(payload@ =~= alarm2_day_payload(when, matching));
        }
        self.iface.write_data(&payload)
    }

    /// Set Alarm2 for a time (fires when hours and minutes match). The day
    /// is not used by this matching strategy and is set to 1.
    ///
    /// Will return an `Error::InvalidInputData`, before anything is issued
    /// on the bus, if the hour or minute is out of range.
    pub fn set_alarm2_hm(&mut self, when: Time) -> (r: Result<(), Error<E>>)
        ensures
            final(self).caches_unchanged(*old(self)),
            !(when.hour <= 23 && when.minute <= 59) ==> r == Err::<(), Error<E>>(
                Error::InvalidInputData,
            ) && *final(self) == *old(self),
            (r matches Ok(_)) && when.hour <= 23 && when.minute <= 59 ==> final(self).wrote_burst(
                *old(self),
                alarm2_day_payload(
                    DayAlarm2 { day: 1, hour: Hours::H24(when.hour), minute: when.minute },
                    Alarm2Matching::HoursAndMinutesMatch,
                ),
            ),
    {
        let alarm = DayAlarm2 { day: 1, hour: Hours::H24(when.hour), minute: when.minute };
        self.set_alarm2_day(alarm, Alarm2Matching::HoursAndMinutesMatch)
    }

    /// Set Alarm2 for weekday.
    ///
    /// Will return an `Error::InvalidInputData`, before anything is issued
    /// on the bus, if a parameter the matching strategy uses is out of
    /// range. Any unused parameter is set to the corresponding minimum
    /// valid value: minute, hour to 0, weekday to 1.
    pub fn set_alarm2_weekday(&mut self, when: WeekdayAlarm2, matching: Alarm2Matching) -> (r:
        Result<(), Error<E>>)
        ensures
            final(self).caches_unchanged(*old(self)),
            alarm2_weekday_rejected(when, matching) ==> r == Err::<(), Error<E>>(
                Error::InvalidInputData,
            ) && *final(self) == *old(self),
            !alarm2_weekday_rejected(when, matching) && (r matches Ok(_)) ==> final(self).wrote_burst(
                *old(self),
                alarm2_weekday_payload(when, matching),
            ),
    {
        let weekday_invalid = when.weekday < 1 || when.weekday > 7;
        let hour_invalid = is_hour_valid(when.hour);
        let minute_invalid = when.minute > 59;

        let weekday = if weekday_invalid { 1 } else { when.weekday };
        let hour = amend_hour(when.hour);
        let minute = if minute_invalid { 0 } else { when.minute };

        if (matching == Alarm2Matching::AllMatch && (weekday_invalid || hour_invalid)) || (matching
            == Alarm2Matching::HoursAndMinutesMatch && hour_invalid) || (minute_invalid && matching
            != Alarm2Matching::OncePerMinute) {
            return Err(Error::InvalidInputData);
        }
        let match_mask = get_matching_mask_alarm2(matching);
        let hour_reg = hours_to_register(hour)?;
        let payload: Vec<u8> = vec![
            register::ALARM2_MINUTES,
            decimal_to_packed_bcd(minute) | match_mask[0],
            hour_reg | match_mask[1],
            decimal_to_packed_bcd(weekday) | match_mask[2] | bitflags::WEEKDAY,
        ];
        proof {
            assert(payload@ =~= alarm2_weekday_payload(when, matching));
        }
        self.iface.write_data(&payload)
    }
}

} // verus!
