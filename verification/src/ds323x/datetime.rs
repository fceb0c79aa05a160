//! Time and date access.

use vstd::prelude::*;
use crate::bcd::{bcd_decode, bcd_encode, decimal_to_packed_bcd, packed_bcd_to_decimal,
    lemma_bcd_roundtrip};
use crate::ds323x::{get_h24, h24_of, hours_decode, hours_encode, hours_from_register,
    hours_to_register, lemma_hours_roundtrip};
use crate::types::{date_valid, datetime_valid, hours_valid, time_valid, Date, DateTime, Hours,
    Time};
use crate::{bitflags, register, BusOp, Ds323x, Error, ReadData, Transport, WriteData};

verus! {

/// Month-register byte for a month and the century of a year: packed BCD
/// month, with the century bit set for a year in the 2100 century.
pub open spec fn month_register(month: u8, year: u16) -> u8 {
    if year > 2099 {
        bitflags::CENTURY | bcd_encode(month)
    } else {
        bcd_encode(month)
    }
}

/// Year-register byte for a year: the year's offset from the start of its
/// century, in packed BCD.
pub open spec fn year_register(year: u16) -> u8 {
    if year > 2099 {
        bcd_encode((year - 2100) as u8)
    } else {
        bcd_encode((year - 2000) as u8)
    }
}

/// Year held in the month and year registers: the century bit of the month
/// register picks the century, the year register counts the years into it.
pub open spec fn year_decode(month_reg: u8, year_reg: u8) -> u16 {
    if month_reg & bitflags::CENTURY != 0 {
        (2100 + bcd_decode(year_reg)) as u16
    } else {
        (2000 + bcd_decode(year_reg)) as u16
    }
}

/// Timestamp held in the seven time and date registers, seconds register
/// first.
pub open spec fn datetime_decode(data: Seq<u8>) -> DateTime
    recommends
        data.len() == 7,
{
    DateTime {
        year: year_decode(data[5], data[6]),
        month: bcd_decode(data[5] & !bitflags::CENTURY),
        day: bcd_decode(data[4]),
        weekday: bcd_decode(data[3]),
        hour: hours_decode(data[2]),
        minute: bcd_decode(data[1]),
        second: bcd_decode(data[0]),
    }
}

/// Burst-write payload storing a timestamp: the seconds register address
/// followed by the seven encoded register bytes.
pub open spec fn datetime_payload(datetime: DateTime) -> Seq<u8> {
    seq![
        register::SECONDS,
        bcd_encode(datetime.second),
        bcd_encode(datetime.minute),
        hours_encode(datetime.hour),
        datetime.weekday,
        bcd_encode(datetime.day),
        month_register(datetime.month, datetime.year),
        year_register(datetime.year),
    ]
}

/// Time of day held in the first three time registers, seconds register
/// first, with a 12-hour value converted to its 24-hour equivalent.
pub open spec fn time_decode(data: Seq<u8>) -> Time
    recommends
        data.len() == 3,
{
    Time {
        hour: h24_of(hours_decode(data[2])) as u8,
        minute: bcd_decode(data[1]),
        second: bcd_decode(data[0]),
    }
}

/// Burst-write payload storing a time of day: the seconds register address
/// followed by the three encoded register bytes, the hour in 24-hour mode.
pub open spec fn time_payload(time: Time) -> Seq<u8> {
    seq![
        register::SECONDS,
        bcd_encode(time.second),
        bcd_encode(time.minute),
        bcd_encode(time.hour),
    ]
}

/// Date held in the four date registers, day-of-week register first.
pub open spec fn date_decode(data: Seq<u8>) -> Date
    recommends
        data.len() == 4,
{
    Date {
        year: year_decode(data[2], data[3]),
        month: bcd_decode(data[2] & !bitflags::CENTURY),
        day: bcd_decode(data[1]),
        weekday: bcd_decode(data[0]),
    }
}

/// Burst-write payload storing a date: the day-of-week register address
/// followed by the four encoded register bytes.
pub open spec fn date_payload(date: Date) -> Seq<u8> {
    seq![
        register::DOW,
        date.weekday,
        bcd_encode(date.day),
        month_register(date.month, date.year),
        year_register(date.year),
    ]
}

/// Decode the year held in the month and year registers.
pub fn year_from_registers(month: u8, year: u8) -> (r: u16)
    ensures
        r == year_decode(month, year),
{
    let century = month & bitflags::CENTURY;
    let year = packed_bcd_to_decimal(year);
    if century != 0 {
        2100 + (year as u16)
    } else {
        2000 + (year as u16)
    }
}

/// Encode a month and a year as the month and year register bytes.
pub fn month_year_to_registers(month: u8, year: u16) -> (r: (u8, u8))
    requires
        month <= 99,
        2000 <= year <= 2100,
    ensures
        r.0 == month_register(month, year),
        r.1 == year_register(year),
{
    if year > 2099 {
        let month = bitflags::CENTURY | decimal_to_packed_bcd(month);
        (month, decimal_to_packed_bcd((year - 2100) as u8))
    } else {
        (decimal_to_packed_bcd(month), decimal_to_packed_bcd((year - 2000) as u8))
    }
}

/// Check every field of a timestamp against its legal range.
fn datetime_is_valid(datetime: &DateTime) -> (r: bool)
    ensures
        r == datetime_valid(*datetime),
{
    2000 <= datetime.year && datetime.year <= 2100 && 1 <= datetime.month && datetime.month <= 12
        && 1 <= datetime.day && datetime.day <= 31 && 1 <= datetime.weekday && datetime.weekday
        <= 7 && hour_is_valid(datetime.hour) && datetime.minute <= 59 && datetime.second <= 59
}

/// Check an hour value against its variant's legal range.
fn hour_is_valid(hours: Hours) -> (r: bool)
    ensures
        r == hours_valid(hours),
{
    match hours {
        Hours::H24(h) => h <= 23,
        Hours::AM(h) => 1 <= h && h <= 12,
        Hours::PM(h) => 1 <= h && h <= 12,
    }
}

/// Decode and validate the seven time and date register bytes, seconds
/// register first.
///
/// Returns `Error::InvalidDeviceState` exactly when the bytes do not hold
/// a timestamp whose fields are all in range (the chip is probably missing
/// initialization).
pub fn datetime_from_register_bytes<E>(data: &Vec<u8>) -> (r: Result<DateTime, Error<E>>)
    requires
        data@.len() == 7,
    ensures
        datetime_valid(datetime_decode(data@)) ==> r == Ok::<DateTime, Error<E>>(
            datetime_decode(data@),
        ),
        !datetime_valid(datetime_decode(data@)) ==> r == Err::<DateTime, Error<E>>(
            Error::InvalidDeviceState,
        ),
{
    let dt = DateTime {
        year: year_from_registers(data[5], data[6]),
        month: packed_bcd_to_decimal(data[5] & !bitflags::CENTURY),
        day: packed_bcd_to_decimal(data[4]),
        weekday: packed_bcd_to_decimal(data[3]),
        hour: hours_from_register(data[2]),
        minute: packed_bcd_to_decimal(data[1]),
        second: packed_bcd_to_decimal(data[0]),
    };
    if datetime_is_valid(&dt) {
        Ok(dt)
    } else {
        Err(Error::InvalidDeviceState)
    }
}

/// Decode and validate the first three time register bytes, seconds
/// register first, converting a 12-hour value to its 24-hour equivalent.
///
/// Returns `Error::InvalidDeviceState` exactly when the bytes do not hold
/// a time whose fields are all in range.
pub fn time_from_register_bytes<E>(data: &Vec<u8>) -> (r: Result<Time, Error<E>>)
    requires
        data@.len() == 3,
    ensures
        time_valid(time_decode(data@)) ==> r == Ok::<Time, Error<E>>(time_decode(data@)),
        !time_valid(time_decode(data@)) ==> r == Err::<Time, Error<E>>(Error::InvalidDeviceState),
{
    proof {
        let b = data@[2];
        assert(bcd_decode(b & !bitflags::H24_H12) <= 165 && bcd_decode(
            b & !(bitflags::H24_H12 | bitflags::AM_PM),
        ) <= 165) by (bit_vector);
    }
    let t = Time {
        hour: get_h24(hours_from_register(data[2])),
        minute: packed_bcd_to_decimal(data[1]),
        second: packed_bcd_to_decimal(data[0]),
    };
    if t.hour <= 23 && t.minute <= 59 && t.second <= 59 {
        Ok(t)
    } else {
        Err(Error::InvalidDeviceState)
    }
}

/// Decode and validate the four date register bytes, day-of-week register
/// first.
///
/// Returns `Error::InvalidDeviceState` exactly when the bytes do not hold
/// a date whose fields are all in range.
pub fn date_from_register_bytes<E>(data: &Vec<u8>) -> (r: Result<Date, Error<E>>)
    requires
        data@.len() == 4,
    ensures
        date_valid(date_decode(data@)) ==> r == Ok::<Date, Error<E>>(date_decode(data@)),
        !date_valid(date_decode(data@)) ==> r == Err::<Date, Error<E>>(Error::InvalidDeviceState),
{
    let d = Date {
        year: year_from_registers(data[2], data[3]),
        month: packed_bcd_to_decimal(data[2] & !bitflags::CENTURY),
        day: packed_bcd_to_decimal(data[1]),
        weekday: packed_bcd_to_decimal(data[0]),
    };
    if 2000 <= d.year && d.year <= 2100 && 1 <= d.month && d.month <= 12 && 1 <= d.day && d.day
        <= 31 && 1 <= d.weekday && d.weekday <= 7 {
        Ok(d)
    } else {
        Err(Error::InvalidDeviceState)
    }
}

impl<DI, IC, E> Ds323x<DI, IC> where
    DI: ReadData<Error = Error<E>> + WriteData<Error = Error<E>>,
 {
    /// Read the full timestamp as one uninterrupted burst, so that all
    /// seven registers reflect one instant, and decode it with
    /// [`datetime_from_register_bytes`], which returns
    /// `Error::InvalidDeviceState` exactly when the bytes read do not hold
    /// a timestamp whose fields are all in range.
    pub fn datetime(&mut self) -> (r: Result<DateTime, Error<E>>)
        ensures
            final(self).caches_unchanged(*old(self)),
            r matches Ok(dt) ==> {
                &&& dt == datetime_decode(old(self).regs_window(register::SECONDS, 7))
                &&& datetime_valid(dt)
                &&& final(self).read_burst_only(*old(self), register::SECONDS, 7)
            },
    {
        let data = self.iface.read_data(register::SECONDS, 7)?;
        proof {
            assert(data@ =~= old(self).regs_window(register::SECONDS, 7));
        }
        datetime_from_register_bytes(&data)
    }

    /// Validate a timestamp and store it with one uninterrupted burst
    /// write of all seven time and date registers.
    ///
    /// Returns `Error::InvalidInputData`, before anything is issued on the
    /// bus, exactly when some field of the timestamp is out of range.
    pub fn set_datetime(&mut self, datetime: &DateTime) -> (r: Result<(), Error<E>>)
        ensures
            final(self).caches_unchanged(*old(self)),
            !datetime_valid(*datetime) ==> r == Err::<(), Error<E>>(Error::InvalidInputData)
                && *final(self) == *old(self),
            datetime_valid(*datetime) && (r matches Ok(_)) ==> final(self).wrote_burst(
                *old(self),
                datetime_payload(*datetime),
            ),
    {
        if !datetime_is_valid(datetime) {
            return Err(Error::InvalidInputData);
        }
        let hour = hours_to_register(datetime.hour)?;
        let (month, year) = month_year_to_registers(datetime.month, datetime.year);
        let payload: Vec<u8> = vec![
            register::SECONDS,
            decimal_to_packed_bcd(datetime.second),
            decimal_to_packed_bcd(datetime.minute),
            hour,
            datetime.weekday,
            decimal_to_packed_bcd(datetime.day),
            month,
            year,
        ];
        proof {
            assert(payload@ =~= datetime_payload(*datetime));
        }
        self.iface.write_data(&payload)
    }

    /// Read the seconds.
    pub fn seconds(&mut self) -> (r: Result<u8, Error<E>>)
        ensures
            final(self).caches_unchanged(*old(self)),
            r matches Ok(v) ==> {
                &&& v == bcd_decode(old(self).reg(register::SECONDS))
                &&& final(self).read_register_only(*old(self), register::SECONDS)
            },
    {
        self.read_register_decimal(register::SECONDS)
    }

    /// Read the minutes.
    pub fn minutes(&mut self) -> (r: Result<u8, Error<E>>)
        ensures
            final(self).caches_unchanged(*old(self)),
            r matches Ok(v) ==> {
                &&& v == bcd_decode(old(self).reg(register::MINUTES))
                &&& final(self).read_register_only(*old(self), register::MINUTES)
            },
    {
        self.read_register_decimal(register::MINUTES)
    }

    /// Read the hours, in whichever of the 12-hour and 24-hour formats the
    /// chip is running.
    pub fn hours(&mut self) -> (r: Result<Hours, Error<E>>)
        ensures
            final(self).caches_unchanged(*old(self)),
            r matches Ok(v) ==> {
                &&& v == hours_decode(old(self).reg(register::HOURS))
                &&& final(self).read_register_only(*old(self), register::HOURS)
            },
    {
        let data = self.iface.read_register(register::HOURS)?;
        Ok(hours_from_register(data))
    }

    /// Read the time of day as one uninterrupted burst of the three time
    /// registers, converting a 12-hour value to its 24-hour equivalent.
    ///
    /// Decoded with [`time_from_register_bytes`], which returns
    /// `Error::InvalidDeviceState` exactly when the bytes read do not hold
    /// a time whose fields are all in range.
    pub fn time(&mut self) -> (r: Result<Time, Error<E>>)
        ensures
            final(self).caches_unchanged(*old(self)),
            r matches Ok(t) ==> {
                &&& t == time_decode(old(self).regs_window(register::SECONDS, 3))
                &&& time_valid(t)
                &&& final(self).read_burst_only(*old(self), register::SECONDS, 3)
            },
    {
        let data = self.iface.read_data(register::SECONDS, 3)?;
        proof {
            assert(data@ =~= old(self).regs_window(register::SECONDS, 3));
        }
        time_from_register_bytes(&data)
    }

    /// Read the day of the week.
    pub fn weekday(&mut self) -> (r: Result<u8, Error<E>>)
        ensures
            final(self).caches_unchanged(*old(self)),
            r matches Ok(v) ==> {
                &&& v == bcd_decode(old(self).reg(register::DOW))
                &&& final(self).read_register_only(*old(self), register::DOW)
            },
    {
        self.read_register_decimal(register::DOW)
    }

    /// Read the day of the month.
    pub fn day(&mut self) -> (r: Result<u8, Error<E>>)
        ensures
            final(self).caches_unchanged(*old(self)),
            r matches Ok(v) ==> {
                &&& v == bcd_decode(old(self).reg(register::DOM))
                &&& final(self).read_register_only(*old(self), register::DOM)
            },
    {
        self.read_register_decimal(register::DOM)
    }

    /// Read the month, masking out the century bit.
    pub fn month(&mut self) -> (r: Result<u8, Error<E>>)
        ensures
            final(self).caches_unchanged(*old(self)),
            r matches Ok(v) ==> {
                &&& v == bcd_decode(old(self).reg(register::MONTH) & !bitflags::CENTURY)
                &&& final(self).read_register_only(*old(self), register::MONTH)
            },
    {
        let data = self.iface.read_register(register::MONTH)?;
        let value = data & !bitflags::CENTURY;
        Ok(packed_bcd_to_decimal(value))
    }

    /// Read the year as one uninterrupted burst of the month and year
    /// registers.
    pub fn year(&mut self) -> (r: Result<u16, Error<E>>)
        ensures
            final(self).caches_unchanged(*old(self)),
            r matches Ok(v) ==> {
                &&& v == year_decode(old(self).reg(register::MONTH), old(self).reg(register::YEAR))
                &&& final(self).read_burst_only(*old(self), register::MONTH, 2)
            },
    {
        let data = self.iface.read_data(register::MONTH, 2)?;
        Ok(year_from_registers(data[0], data[1]))
    }

    /// Read the date as one uninterrupted burst of the four date
    /// registers.
    ///
    /// Decoded with [`date_from_register_bytes`], which returns
    /// `Error::InvalidDeviceState` exactly when the bytes read do not hold
    /// a date whose fields are all in range.
    pub fn date(&mut self) -> (r: Result<Date, Error<E>>)
        ensures
            final(self).caches_unchanged(*old(self)),
            r matches Ok(d) ==> {
                &&& d == date_decode(old(self).regs_window(register::DOW, 4))
                &&& date_valid(d)
                &&& final(self).read_burst_only(*old(self), register::DOW, 4)
            },
    {
        let data = self.iface.read_data(register::DOW, 4)?;
        proof {
            assert(data@ =~= old(self).regs_window(register::DOW, 4));
        }
        date_from_register_bytes(&data)
    }

    /// Set the seconds.
    pub fn set_seconds(&mut self, seconds: u8) -> (r: Result<(), Error<E>>)
        ensures
            final(self).caches_unchanged(*old(self)),
            seconds > 59 ==> r == Err::<(), Error<E>>(Error::InvalidInputData) && *final(self)
                == *old(self),
            seconds <= 59 && (r matches Ok(_)) ==> final(self).wrote_register(
                *old(self),
                register::SECONDS,
                bcd_encode(seconds),
            ),
    {
        if seconds > 59 {
            return Err(Error::InvalidInputData);
        }
        self.write_register_decimal(register::SECONDS, seconds)
    }

    /// Set the minutes.
    pub fn set_minutes(&mut self, minutes: u8) -> (r: Result<(), Error<E>>)
        ensures
            final(self).caches_unchanged(*old(self)),
            minutes > 59 ==> r == Err::<(), Error<E>>(Error::InvalidInputData) && *final(self)
                == *old(self),
            minutes <= 59 && (r matches Ok(_)) ==> final(self).wrote_register(
                *old(self),
                register::MINUTES,
                bcd_encode(minutes),
            ),
    {
        if minutes > 59 {
            return Err(Error::InvalidInputData);
        }
        self.write_register_decimal(register::MINUTES, minutes)
    }

    /// Set the hours, selecting the 12-hour or 24-hour format of the given
    /// value.
    ///
    /// Returns `Error::InvalidInputData`, before anything is issued on the
    /// bus, exactly when the value is out of its variant's range.
    pub fn set_hours(&mut self, hours: Hours) -> (r: Result<(), Error<E>>)
        ensures
            final(self).caches_unchanged(*old(self)),
            !hours_valid(hours) ==> r == Err::<(), Error<E>>(Error::InvalidInputData)
                && *final(self) == *old(self),
            hours_valid(hours) && (r matches Ok(_)) ==> final(self).wrote_register(
                *old(self),
                register::HOURS,
                hours_encode(hours),
            ),
    {
        let value = hours_to_register(hours)?;
        self.iface.write_register(register::HOURS, value)
    }

    /// Validate a time of day and store it with one uninterrupted burst
    /// write of the three time registers, in 24-hour format.
    ///
    /// Returns `Error::InvalidInputData`, before anything is issued on the
    /// bus, exactly when some field of the time is out of range.
    pub fn set_time(&mut self, time: &Time) -> (r: Result<(), Error<E>>)
        ensures
            final(self).caches_unchanged(*old(self)),
            !time_valid(*time) ==> r == Err::<(), Error<E>>(Error::InvalidInputData)
                && *final(self) == *old(self),
            time_valid(*time) && (r matches Ok(_)) ==> final(self).wrote_burst(
                *old(self),
                time_payload(*time),
            ),
    {
        if !(time.hour <= 23 && time.minute <= 59 && time.second <= 59) {
            return Err(Error::InvalidInputData);
        }
        let payload: Vec<u8> = vec![
            register::SECONDS,
            decimal_to_packed_bcd(time.second),
            decimal_to_packed_bcd(time.minute),
            decimal_to_packed_bcd(time.hour),
        ];
        proof {
            assert(payload@ =~= time_payload(*time));
        }
        self.iface.write_data(&payload)
    }

    /// Set the day of the week [1-7].
    pub fn set_weekday(&mut self, weekday: u8) -> (r: Result<(), Error<E>>)
        ensures
            final(self).caches_unchanged(*old(self)),
            !(1 <= weekday <= 7) ==> r == Err::<(), Error<E>>(Error::InvalidInputData)
                && *final(self) == *old(self),
            1 <= weekday <= 7 && (r matches Ok(_)) ==> final(self).wrote_register(
                *old(self),
                register::DOW,
                weekday,
            ),
    {
        if !(1 <= weekday && weekday <= 7) {
            return Err(Error::InvalidInputData);
        }
        self.iface.write_register(register::DOW, weekday)
    }

    /// Set the day of the month [1-31].
    pub fn set_day(&mut self, day: u8) -> (r: Result<(), Error<E>>)
        ensures
            final(self).caches_unchanged(*old(self)),
            !(1 <= day <= 31) ==> r == Err::<(), Error<E>>(Error::InvalidInputData) && *final(self)
                == *old(self),
            1 <= day <= 31 && (r matches Ok(_)) ==> final(self).wrote_register(
                *old(self),
                register::DOM,
                bcd_encode(day),
            ),
    {
        if !(1 <= day && day <= 31) {
            return Err(Error::InvalidInputData);
        }
        self.write_register_decimal(register::DOM, day)
    }

    /// Set the month [1-12], preserving the century bit the month register
    /// also holds.
    pub fn set_month(&mut self, month: u8) -> (r: Result<(), Error<E>>)
        ensures
            final(self).caches_unchanged(*old(self)),
            !(1 <= month <= 12) ==> r == Err::<(), Error<E>>(Error::InvalidInputData)
                && *final(self) == *old(self),
            1 <= month <= 12 && (r matches Ok(_)) ==> {
                &&& final(self).reg(register::MONTH) == ((old(self).reg(register::MONTH)
                    & bitflags::CENTURY) | bcd_encode(month))
                &&& forall|a: u8| a != register::MONTH ==> final(self).reg(a) == old(self).reg(a)
                &&& final(self).history() == old(self).history().push(
                    BusOp::ReadRegister { register: register::MONTH },
                ).push(
                    BusOp::WriteRegister {
                        register: register::MONTH,
                        value: (old(self).reg(register::MONTH) & bitflags::CENTURY) | bcd_encode(
                            month,
                        ),
                    },
                )
            },
    {
        if !(1 <= month && month <= 12) {
            return Err(Error::InvalidInputData);
        }
        // keep the century bit
        let data = self.iface.read_register(register::MONTH)?;
        let value = (data & bitflags::CENTURY) | decimal_to_packed_bcd(month);
        self.iface.write_register(register::MONTH, value)
    }

    /// Set the year [2000-2100], placing the century bit without touching
    /// the month held in the same register, with one read of the month
    /// register and one uninterrupted burst write of both registers.
    pub fn set_year(&mut self, year: u16) -> (r: Result<(), Error<E>>)
        ensures
            final(self).caches_unchanged(*old(self)),
            !(2000 <= year <= 2100) ==> r == Err::<(), Error<E>>(Error::InvalidInputData)
                && *final(self) == *old(self),
            2000 <= year <= 2100 && (r matches Ok(_)) ==> {
                &&& final(self).reg(register::MONTH) == (if year > 2099 {
                    bitflags::CENTURY | (old(self).reg(register::MONTH) & !bitflags::CENTURY)
                } else {
                    old(self).reg(register::MONTH) & !bitflags::CENTURY
                })
                &&& final(self).reg(register::YEAR) == year_register(year)
                &&& forall|a: u8|
                    a != register::MONTH && a != register::YEAR ==> final(self).reg(a) == old(
                        self,
                    ).reg(a)
                &&& final(self).history() == old(self).history().push(
                    BusOp::ReadRegister { register: register::MONTH },
                ).push(
                    BusOp::WriteData {
                        payload: seq![
                            register::MONTH,
                            if year > 2099 {
                                bitflags::CENTURY | (old(self).reg(register::MONTH)
                                    & !bitflags::CENTURY)
                            } else {
                                old(self).reg(register::MONTH) & !bitflags::CENTURY
                            },
                            year_register(year),
                        ],
                    },
                )
            },
    {
        if !(2000 <= year && year <= 2100) {
            return Err(Error::InvalidInputData);
        }
        let data = self.iface.read_register(register::MONTH)?;
        let month_bcd = data & !bitflags::CENTURY;
        if year > 2099 {
            let payload: Vec<u8> = vec![
                register::MONTH,
                bitflags::CENTURY | month_bcd,
                decimal_to_packed_bcd((year - 2100) as u8),
            ];
            self.iface.write_data(&payload)
        } else {
            let payload: Vec<u8> = vec![
                register::MONTH,
                month_bcd,
                decimal_to_packed_bcd((year - 2000) as u8),
            ];
            self.iface.write_data(&payload)
        }
    }

    /// Validate a date and store it with one uninterrupted burst write of
    /// the four date registers.
    ///
    /// Returns `Error::InvalidInputData`, before anything is issued on the
    /// bus, exactly when some field of the date is out of range.
    pub fn set_date(&mut self, date: &Date) -> (r: Result<(), Error<E>>)
        ensures
            final(self).caches_unchanged(*old(self)),
            !date_valid(*date) ==> r == Err::<(), Error<E>>(Error::InvalidInputData)
                && *final(self) == *old(self),
            date_valid(*date) && (r matches Ok(_)) ==> final(self).wrote_burst(
                *old(self),
                date_payload(*date),
            ),
    {
        if !(2000 <= date.year && date.year <= 2100 && 1 <= date.month && date.month <= 12 && 1
            <= date.day && date.day <= 31 && 1 <= date.weekday && date.weekday <= 7) {
            return Err(Error::InvalidInputData);
        }
        let (month, year) = month_year_to_registers(date.month, date.year);
        let payload: Vec<u8> = vec![
            register::DOW,
            date.weekday,
            decimal_to_packed_bcd(date.day),
            month,
            year,
        ];
        proof {
            assert(payload@ =~= date_payload(*date));
        }
        self.iface.write_data(&payload)
    }

    /// Read a register and decode its packed BCD content.
    pub(crate) fn read_register_decimal(&mut self, register: u8) -> (r: Result<u8, Error<E>>)
        requires
            register < crate::REGISTER_COUNT,
        ensures
            final(self).caches_unchanged(*old(self)),
            r matches Ok(v) ==> {
                &&& v == bcd_decode(old(self).reg(register))
                &&& final(self).read_register_only(*old(self), register)
            },
    {
        let data = self.iface.read_register(register)?;
        Ok(packed_bcd_to_decimal(data))
    }

    /// Encode a decimal value as packed BCD and write it to a register.
    pub(crate) fn write_register_decimal(&mut self, register: u8, decimal_number: u8) -> (r:
        Result<(), Error<E>>)
        requires
            register < crate::REGISTER_COUNT,
            decimal_number <= 99,
        ensures
            final(self).caches_unchanged(*old(self)),
            r matches Ok(_) ==> final(self).wrote_register(
                *old(self),
                register,
                bcd_encode(decimal_number),
            ),
    {
        self.iface.write_register(register, decimal_to_packed_bcd(decimal_number))
    }
}

/// Storing any legal timestamp and decoding the seven register bytes it
/// wrote reproduces the exact timestamp, century and hour format included.
pub proof fn lemma_datetime_roundtrip(datetime: DateTime)
    requires
        datetime_valid(datetime),
    ensures
        datetime_decode(datetime_payload(datetime).subrange(1, 8)) == datetime,
{
    let data = datetime_payload(datetime).subrange(1, 8);
    lemma_bcd_roundtrip(datetime.second);
    lemma_bcd_roundtrip(datetime.minute);
    lemma_bcd_roundtrip(datetime.day);
    lemma_hours_roundtrip(datetime.hour);
    lemma_year_roundtrip(datetime.month, datetime.year);
    let w = datetime.weekday;
    assert(1 <= w <= 7 ==> bcd_decode(w) == w) by (bit_vector);
}

/// After a successful timestamp write, the seven time and date registers
/// hold exactly the stored timestamp: a subsequent read of the same span
/// decodes back to it.
pub proof fn lemma_set_then_read_datetime<DI: Transport, IC>(
    pre: Ds323x<DI, IC>,
    post: Ds323x<DI, IC>,
    datetime: DateTime,
)
    requires
        datetime_valid(datetime),
        post.wrote_burst(pre, datetime_payload(datetime)),
    ensures
        datetime_decode(post.regs_window(register::SECONDS, 7)) == datetime,
{
    lemma_datetime_roundtrip(datetime);
    assert(post.regs_window(register::SECONDS, 7) =~= datetime_payload(datetime).subrange(1, 8));
}

/// Encoding any legal month and year as register bytes and decoding them
/// reproduces both values; the century bit is set exactly for the years
/// 2100 and up.
pub proof fn lemma_year_roundtrip(month: u8, year: u16)
    requires
        1 <= month <= 12,
        2000 <= year <= 2100,
    ensures
        year_decode(month_register(month, year), year_register(year)) == year,
        bcd_decode(month_register(month, year) & !bitflags::CENTURY) == month,
        (month_register(month, year) & bitflags::CENTURY != 0) == (year > 2099),
{
    let m = month;
    assert(1 <= m <= 12 ==> {
        &&& (bitflags::CENTURY | bcd_encode(m)) & bitflags::CENTURY != 0
        &&& bcd_encode(m) & bitflags::CENTURY == 0
        &&& (bitflags::CENTURY | bcd_encode(m)) & !bitflags::CENTURY == bcd_encode(m)
        &&& bcd_encode(m) & !bitflags::CENTURY == bcd_encode(m)
    }) by (bit_vector);
    lemma_bcd_roundtrip(month);
    if year > 2099 {
        lemma_bcd_roundtrip((year - 2100) as u8);
    } else {
        lemma_bcd_roundtrip((year - 2000) as u8);
    }
}

} // verus!
