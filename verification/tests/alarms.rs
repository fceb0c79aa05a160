use ds323x::{
    get_matching_mask_alarm1, get_matching_mask_alarm2, Alarm1Matching, Alarm2Matching, DayAlarm1,
    DayAlarm2, Ds323x, Error, Hours, LogEntry, MemInterface, Time, WeekdayAlarm1, WeekdayAlarm2,
};

const AM: u8 = 0b1000_0000;

#[test]
fn alarm1_masks_are_monotone() {
    assert_eq!(get_matching_mask_alarm1(Alarm1Matching::OncePerSecond), [AM, AM, AM, AM]);
    assert_eq!(get_matching_mask_alarm1(Alarm1Matching::SecondsMatch), [0, AM, AM, AM]);
    assert_eq!(get_matching_mask_alarm1(Alarm1Matching::MinutesAndSecondsMatch), [0, 0, AM, AM]);
    assert_eq!(
        get_matching_mask_alarm1(Alarm1Matching::HoursMinutesAndSecondsMatch),
        [0, 0, 0, AM]
    );
    assert_eq!(get_matching_mask_alarm1(Alarm1Matching::AllMatch), [0, 0, 0, 0]);
}

#[test]
fn alarm2_masks_are_monotone() {
    assert_eq!(get_matching_mask_alarm2(Alarm2Matching::OncePerMinute), [AM, AM, AM]);
    assert_eq!(get_matching_mask_alarm2(Alarm2Matching::MinutesMatch), [0, AM, AM]);
    assert_eq!(get_matching_mask_alarm2(Alarm2Matching::HoursAndMinutesMatch), [0, 0, AM]);
    assert_eq!(get_matching_mask_alarm2(Alarm2Matching::AllMatch), [0, 0, 0]);
}

#[test]
fn set_alarm1_day_all_match() {
    let mut dev = Ds323x::new_ds3231(MemInterface::new());
    let alarm = DayAlarm1 {
        day: 13,
        hour: Hours::H24(23),
        minute: 59,
        second: 58,
    };
    dev.set_alarm1_day(alarm, Alarm1Matching::AllMatch).unwrap();
    let iface = dev.destroy_ds3231();
    assert_eq!(
        iface.log()[0],
        LogEntry::WriteData(vec![0x07, 0x58, 0x59, 0x23, 0x13])
    );
}

#[test]
fn set_alarm1_day_once_per_second_amends_unused_fields() {
    let mut dev = Ds323x::new_ds3231(MemInterface::new());
    let alarm = DayAlarm1 {
        day: 0,
        hour: Hours::H24(25),
        minute: 60,
        second: 60,
    };
    dev.set_alarm1_day(alarm, Alarm1Matching::OncePerSecond).unwrap();
    let iface = dev.destroy_ds3231();
    // day amended to 1, hour, minute and second to 0; the ignore bit set
    // everywhere
    assert_eq!(
        iface.log()[0],
        LogEntry::WriteData(vec![0x07, AM, AM, AM, 0x01 | AM])
    );
}

#[test]
fn set_alarm1_day_rejects_used_fields() {
    let mut dev = Ds323x::new_ds3231(MemInterface::new());
    let second_bad = DayAlarm1 {
        day: 1,
        hour: Hours::H24(0),
        minute: 0,
        second: 60,
    };
    // every mode but the coarsest consumes the second
    assert!(matches!(
        dev.set_alarm1_day(second_bad, Alarm1Matching::SecondsMatch),
        Err(Error::InvalidInputData)
    ));
    let day_bad = DayAlarm1 {
        day: 32,
        hour: Hours::H24(0),
        minute: 0,
        second: 0,
    };
    assert!(matches!(
        dev.set_alarm1_day(day_bad, Alarm1Matching::AllMatch),
        Err(Error::InvalidInputData)
    ));
    let hour_bad = DayAlarm1 {
        day: 1,
        hour: Hours::AM(13),
        minute: 0,
        second: 0,
    };
    assert!(matches!(
        dev.set_alarm1_day(hour_bad, Alarm1Matching::HoursMinutesAndSecondsMatch),
        Err(Error::InvalidInputData)
    ));
    let iface = dev.destroy_ds3231();
    assert!(iface.log().is_empty());
}

#[test]
fn set_alarm1_weekday_sets_selector_bit() {
    let mut dev = Ds323x::new_ds3231(MemInterface::new());
    let alarm = WeekdayAlarm1 {
        weekday: 1,
        hour: Hours::H24(7),
        minute: 2,
        second: 15,
    };
    dev.set_alarm1_weekday(alarm, Alarm1Matching::AllMatch).unwrap();
    let iface = dev.destroy_ds3231();
    assert_eq!(
        iface.log()[0],
        LogEntry::WriteData(vec![0x07, 0x15, 0x02, 0x07, 0x01 | 0b0100_0000])
    );
}

#[test]
fn set_alarm1_weekday_once_per_second_ignores_every_field() {
    let mut dev = Ds323x::new_ds3231(MemInterface::new());
    let alarm = WeekdayAlarm1 {
        weekday: 9,
        hour: Hours::PM(0),
        minute: 60,
        second: 61,
    };
    dev.set_alarm1_weekday(alarm, Alarm1Matching::OncePerSecond).unwrap();
    let iface = dev.destroy_ds3231();
    // weekday amended to 1, hour to PM(1), minute and second to 0
    assert_eq!(
        iface.log()[0],
        LogEntry::WriteData(vec![0x07, AM, AM, 0x61 | AM, 0x01 | AM | 0b0100_0000])
    );
}

#[test]
fn set_alarm1_hms_matches_hours_minutes_seconds() {
    let mut dev = Ds323x::new_ds3231(MemInterface::new());
    let time = Time {
        hour: 19,
        minute: 59,
        second: 58,
    };
    dev.set_alarm1_hms(time).unwrap();
    assert!(matches!(
        dev.set_alarm1_hms(Time {
            hour: 24,
            minute: 0,
            second: 0
        }),
        Err(Error::InvalidInputData)
    ));
    let iface = dev.destroy_ds3231();
    assert_eq!(
        iface.log()[0],
        LogEntry::WriteData(vec![0x07, 0x58, 0x59, 0x19, 0x01 | AM])
    );
    assert_eq!(iface.log().len(), 1);
}

#[test]
fn set_alarm2_day_all_match() {
    let mut dev = Ds323x::new_ds3231(MemInterface::new());
    let alarm = DayAlarm2 {
        day: 13,
        hour: Hours::AM(11),
        minute: 2,
    };
    dev.set_alarm2_day(alarm, Alarm2Matching::AllMatch).unwrap();
    let iface = dev.destroy_ds3231();
    assert_eq!(
        iface.log()[0],
        LogEntry::WriteData(vec![0x0B, 0x02, 0x51, 0x13])
    );
}

#[test]
fn set_alarm2_day_rejects_used_fields() {
    let mut dev = Ds323x::new_ds3231(MemInterface::new());
    let minute_bad = DayAlarm2 {
        day: 1,
        hour: Hours::H24(0),
        minute: 60,
    };
    assert!(matches!(
        dev.set_alarm2_day(minute_bad, Alarm2Matching::MinutesMatch),
        Err(Error::InvalidInputData)
    ));
    // once per minute consumes no field at all
    dev.set_alarm2_day(minute_bad, Alarm2Matching::OncePerMinute).unwrap();
    let iface = dev.destroy_ds3231();
    assert_eq!(
        iface.log()[0],
        LogEntry::WriteData(vec![0x0B, AM, AM, 0x01 | AM])
    );
}

#[test]
fn set_alarm2_weekday_sets_selector_bit() {
    let mut dev = Ds323x::new_ds3231(MemInterface::new());
    let alarm = WeekdayAlarm2 {
        weekday: 7,
        hour: Hours::PM(12),
        minute: 59,
    };
    dev.set_alarm2_weekday(alarm, Alarm2Matching::HoursAndMinutesMatch).unwrap();
    let iface = dev.destroy_ds3231();
    // hour PM(12) encodes as 0b0111_0010; the day register only carries the
    // ignore bit, the selector bit and the amended weekday
    assert_eq!(
        iface.log()[0],
        LogEntry::WriteData(vec![0x0B, 0x59, 0x72, 0x07 | AM | 0b0100_0000])
    );
}

#[test]
fn set_alarm2_hm_matches_hours_minutes() {
    let mut dev = Ds323x::new_ds3231(MemInterface::new());
    let time = Time {
        hour: 19,
        minute: 59,
        second: 58,
    };
    dev.set_alarm2_hm(time).unwrap();
    let iface = dev.destroy_ds3231();
    assert_eq!(
        iface.log()[0],
        LogEntry::WriteData(vec![0x0B, 0x59, 0x19, 0x01 | AM])
    );
}
