use ds323x::{
    DateTime, Ds323x, Error, Hours, LogEntry, MemInterface, SqWFreq, TempConvRate, Time,
};

const CONTROL: u8 = 0x0E;
const STATUS: u8 = 0x0F;
const AGING_OFFSET: u8 = 0x10;
const CONTROL_POR: u8 = 0b0001_1100;
const DS3231_STATUS_POR: u8 = 0b1000_1000;
const DS323X_STATUS_POR: u8 = 0b1100_1000;

#[test]
fn can_create_and_destroy() {
    let dev = Ds323x::new_ds3231(MemInterface::new());
    let iface = dev.destroy_ds3231();
    assert!(iface.log().is_empty());
}

#[test]
fn can_create_and_destroy_ds3232() {
    let dev = Ds323x::new_ds3232(MemInterface::new());
    let iface = dev.destroy_ds3232();
    assert!(iface.log().is_empty());
}

#[test]
fn can_create_and_destroy_ds3234() {
    let dev = Ds323x::new_ds3234(MemInterface::new());
    let iface = dev.destroy_ds3234();
    assert!(iface.log().is_empty());
}

#[test]
fn set_datetime_issues_one_burst_write() {
    let mut dev = Ds323x::new_ds3231(MemInterface::new());
    let dt = DateTime {
        year: 2018,
        month: 8,
        day: 13,
        weekday: 2,
        hour: Hours::H24(23),
        minute: 59,
        second: 58,
    };
    dev.set_datetime(&dt).unwrap();
    let read_back = dev.datetime().unwrap();
    assert_eq!(dt, read_back);
    let iface = dev.destroy_ds3231();
    let log = iface.log();
    assert_eq!(log.len(), 2);
    assert_eq!(
        log[0],
        LogEntry::WriteData(vec![0x00, 0x58, 0x59, 0x23, 0x02, 0x13, 0x08, 0x18])
    );
    assert_eq!(log[1], LogEntry::ReadData(0x00, 7));
}

#[test]
fn datetime_of_uninitialized_chip_is_invalid_device_state() {
    let mut dev = Ds323x::new_ds3231(MemInterface::new());
    assert!(matches!(dev.datetime(), Err(Error::InvalidDeviceState)));
}

#[test]
fn validation_rejects_out_of_range_fields_without_any_write() {
    let mut dev = Ds323x::new_ds3231(MemInterface::new());
    assert!(matches!(dev.set_seconds(60), Err(Error::InvalidInputData)));
    assert!(matches!(dev.set_minutes(60), Err(Error::InvalidInputData)));
    assert!(matches!(
        dev.set_hours(Hours::H24(24)),
        Err(Error::InvalidInputData)
    ));
    assert!(matches!(
        dev.set_hours(Hours::AM(0)),
        Err(Error::InvalidInputData)
    ));
    assert!(matches!(
        dev.set_hours(Hours::AM(13)),
        Err(Error::InvalidInputData)
    ));
    assert!(matches!(dev.set_weekday(0), Err(Error::InvalidInputData)));
    assert!(matches!(dev.set_weekday(8), Err(Error::InvalidInputData)));
    assert!(matches!(dev.set_day(0), Err(Error::InvalidInputData)));
    assert!(matches!(dev.set_day(32), Err(Error::InvalidInputData)));
    assert!(matches!(dev.set_month(0), Err(Error::InvalidInputData)));
    assert!(matches!(dev.set_month(13), Err(Error::InvalidInputData)));
    assert!(matches!(dev.set_year(1999), Err(Error::InvalidInputData)));
    assert!(matches!(dev.set_year(2101), Err(Error::InvalidInputData)));
    let iface = dev.destroy_ds3231();
    assert!(iface.log().is_empty());
}

#[test]
fn boundary_values_are_accepted() {
    let mut dev = Ds323x::new_ds3231(MemInterface::new());
    dev.set_seconds(59).unwrap();
    dev.set_minutes(59).unwrap();
    dev.set_hours(Hours::H24(0)).unwrap();
    dev.set_hours(Hours::H24(23)).unwrap();
    dev.set_weekday(1).unwrap();
    dev.set_weekday(7).unwrap();
    dev.set_day(1).unwrap();
    dev.set_day(31).unwrap();
    dev.set_month(1).unwrap();
    dev.set_month(12).unwrap();
    dev.set_year(2000).unwrap();
    dev.set_year(2100).unwrap();
    assert_eq!(dev.day().unwrap(), 31);
    assert_eq!(dev.year().unwrap(), 2100);
}

#[test]
fn individual_field_writes_are_bcd_encoded() {
    let mut dev = Ds323x::new_ds3231(MemInterface::new());
    dev.set_seconds(58).unwrap();
    dev.set_minutes(59).unwrap();
    dev.set_hours(Hours::H24(23)).unwrap();
    dev.set_weekday(2).unwrap();
    dev.set_day(13).unwrap();
    assert_eq!(dev.seconds().unwrap(), 58);
    assert_eq!(dev.minutes().unwrap(), 59);
    assert_eq!(dev.hours().unwrap(), Hours::H24(23));
    assert_eq!(dev.weekday().unwrap(), 2);
    assert_eq!(dev.day().unwrap(), 13);
    let iface = dev.destroy_ds3231();
    let log = iface.log();
    assert_eq!(log[0], LogEntry::WriteRegister(0x00, 0x58));
    assert_eq!(log[1], LogEntry::WriteRegister(0x01, 0x59));
    assert_eq!(log[2], LogEntry::WriteRegister(0x02, 0x23));
    assert_eq!(log[3], LogEntry::WriteRegister(0x03, 0x02));
    assert_eq!(log[4], LogEntry::WriteRegister(0x04, 0x13));
}

#[test]
fn century_wraparound_2099() {
    let mut dev = Ds323x::new_ds3231(MemInterface::new());
    dev.set_month(8).unwrap();
    dev.set_year(2099).unwrap();
    assert_eq!(dev.year().unwrap(), 2099);
    assert_eq!(dev.month().unwrap(), 8);
    let iface = dev.destroy_ds3231();
    // the year write re-reads the month register and bursts month + year
    assert_eq!(iface.log()[2], LogEntry::ReadRegister(0x05));
    assert_eq!(iface.log()[3], LogEntry::WriteData(vec![0x05, 0x08, 0x99]));
    assert_eq!(iface.peek(0x05), 0x08);
    assert_eq!(iface.peek(0x06), 0x99);
}

#[test]
fn century_wraparound_2100() {
    let mut dev = Ds323x::new_ds3231(MemInterface::new());
    dev.set_month(8).unwrap();
    dev.set_year(2100).unwrap();
    assert_eq!(dev.year().unwrap(), 2100);
    assert_eq!(dev.month().unwrap(), 8);
    let iface = dev.destroy_ds3231();
    assert_eq!(iface.log()[3], LogEntry::WriteData(vec![0x05, 0x88, 0x00]));
    assert_eq!(iface.peek(0x05), 0x88);
    assert_eq!(iface.peek(0x06), 0x00);
}

#[test]
fn set_and_read_back_time() {
    let mut dev = Ds323x::new_ds3231(MemInterface::new());
    let time = Time {
        hour: 19,
        minute: 59,
        second: 58,
    };
    dev.set_time(&time).unwrap();
    assert_eq!(dev.time().unwrap(), time);
    assert!(matches!(
        dev.set_time(&Time {
            hour: 24,
            minute: 0,
            second: 0
        }),
        Err(Error::InvalidInputData)
    ));
}

#[test]
fn twelve_hour_mode_round_trip() {
    let mut dev = Ds323x::new_ds3231(MemInterface::new());
    dev.set_hours(Hours::AM(12)).unwrap();
    assert_eq!(dev.hours().unwrap(), Hours::AM(12));
    dev.set_hours(Hours::PM(12)).unwrap();
    assert_eq!(dev.hours().unwrap(), Hours::PM(12));
    let iface = dev.destroy_ds3231();
    assert_eq!(iface.log()[0], LogEntry::WriteRegister(0x02, 0b0101_0010));
    assert_eq!(iface.log()[2], LogEntry::WriteRegister(0x02, 0b0111_0010));
}

#[test]
fn set_and_read_back_date() {
    let mut dev = Ds323x::new_ds3231(MemInterface::new());
    let date = ds323x::Date {
        year: 2018,
        month: 8,
        day: 13,
        weekday: 2,
    };
    dev.set_date(&date).unwrap();
    assert_eq!(dev.date().unwrap(), date);
    assert!(matches!(
        dev.set_date(&ds323x::Date {
            year: 2018,
            month: 13,
            day: 1,
            weekday: 1
        }),
        Err(Error::InvalidInputData)
    ));
    let iface = dev.destroy_ds3231();
    let log = iface.log();
    assert_eq!(log.len(), 2);
    assert_eq!(log[0], LogEntry::WriteData(vec![0x03, 0x02, 0x13, 0x08, 0x18]));
    assert_eq!(log[1], LogEntry::ReadData(0x03, 4));
}

#[test]
fn status_writes_reassert_alarm_flags() {
    let mut dev = Ds323x::new_ds3231(MemInterface::new());
    dev.enable_32khz_output().unwrap();
    dev.disable_32khz_output().unwrap();
    dev.clear_has_been_stopped_flag().unwrap();
    let iface = dev.destroy_ds3231();
    let log = iface.log();
    // every status write carries both alarm-match flags set
    assert_eq!(
        log[0],
        LogEntry::WriteRegister(STATUS, DS3231_STATUS_POR | 0b0000_0011)
    );
    assert_eq!(
        log[1],
        LogEntry::WriteRegister(STATUS, (DS3231_STATUS_POR & !0b0000_1000) | 0b0000_0011)
    );
    assert_eq!(
        log[2],
        LogEntry::WriteRegister(
            STATUS,
            (DS3231_STATUS_POR & !0b1000_1000) | 0b0000_0011
        )
    );
}

#[test]
fn clearing_one_alarm_flag_preserves_the_other() {
    let mut dev = Ds323x::new_ds3231(MemInterface::new());
    dev.clear_alarm1_matched_flag().unwrap();
    dev.clear_alarm2_matched_flag().unwrap();
    let iface = dev.destroy_ds3231();
    let log = iface.log();
    // the cleared flag is written as zero, the other flag as one
    assert_eq!(
        log[0],
        LogEntry::WriteRegister(STATUS, DS3231_STATUS_POR | 0b0000_0010)
    );
    assert_eq!(
        log[1],
        LogEntry::WriteRegister(STATUS, DS3231_STATUS_POR | 0b0000_0001)
    );
}

#[test]
fn alarm_flag_reads_decode_status_bits() {
    let mut iface = MemInterface::new();
    iface.poke(STATUS, 0b0000_0011);
    let mut dev = Ds323x::new_ds3231(iface);
    assert!(dev.has_alarm1_matched().unwrap());
    assert!(dev.has_alarm2_matched().unwrap());
    assert!(!dev.busy().unwrap());
    assert!(!dev.has_been_stopped().unwrap());
}

#[test]
fn oscillator_enable_and_running() {
    let mut dev = Ds323x::new_ds3231(MemInterface::new());
    dev.disable().unwrap();
    assert!(!dev.running().unwrap());
    dev.enable().unwrap();
    assert!(dev.running().unwrap());
    let iface = dev.destroy_ds3231();
    let log = iface.log();
    assert_eq!(log[0], LogEntry::WriteRegister(CONTROL, CONTROL_POR | 0b1000_0000));
    assert_eq!(log[2], LogEntry::WriteRegister(CONTROL, CONTROL_POR & !0b1000_0000));
}

#[test]
fn square_wave_frequency_bits() {
    let mut dev = Ds323x::new_ds3231(MemInterface::new());
    dev.set_square_wave_frequency(SqWFreq::_4_096Hz).unwrap();
    let iface = dev.destroy_ds3231();
    // POR control has RS2 and RS1 set; 4.096 Hz keeps RS2 and clears RS1
    assert_eq!(
        iface.log()[0],
        LogEntry::WriteRegister(CONTROL, (CONTROL_POR | 0b0001_0000) & !0b0000_1000)
    );
}

#[test]
fn aging_offset_roundtrip() {
    let mut dev = Ds323x::new_ds3231(MemInterface::new());
    dev.set_aging_offset(-15).unwrap();
    assert_eq!(dev.aging_offset().unwrap(), -15);
    dev.set_aging_offset(127).unwrap();
    assert_eq!(dev.aging_offset().unwrap(), 127);
    dev.set_aging_offset(-128).unwrap();
    assert_eq!(dev.aging_offset().unwrap(), -128);
    let iface = dev.destroy_ds3231();
    assert_eq!(iface.log()[0], LogEntry::WriteRegister(AGING_OFFSET, 0xF1));
}

#[test]
fn temperature_read_is_one_burst() {
    let mut iface = MemInterface::new();
    iface.poke(0x11, 0x7F);
    iface.poke(0x12, 0xC0);
    let mut dev = Ds323x::new_ds3231(iface);
    let quarters = dev.temperature_quarters().unwrap();
    assert_eq!(quarters, 511);
    assert_eq!(f32::from(quarters) * 0.25, 127.75f32);
    let iface = dev.destroy_ds3231();
    assert_eq!(iface.log()[0], LogEntry::ReadData(0x11, 2));
}

#[test]
fn convert_temperature_only_when_idle() {
    let mut iface = MemInterface::new();
    iface.poke(CONTROL, 0b0010_0000);
    let mut dev = Ds323x::new_ds3231(iface);
    // a conversion is already in progress: read, but do not write
    dev.convert_temperature().unwrap();
    let iface = dev.destroy_ds3231();
    assert_eq!(iface.log().len(), 1);
    assert_eq!(iface.log()[0], LogEntry::ReadRegister(CONTROL));

    let mut dev = Ds323x::new_ds3231(MemInterface::new());
    dev.convert_temperature().unwrap();
    let iface = dev.destroy_ds3231();
    assert_eq!(iface.log().len(), 2);
    assert_eq!(iface.log()[1], LogEntry::WriteRegister(CONTROL, 0b0010_0000));
}

#[test]
fn battery_backed_32khz_output_and_conversion_rate() {
    let mut dev = Ds323x::new_ds3232(MemInterface::new());
    dev.disable_32khz_output_on_battery().unwrap();
    dev.set_temperature_conversion_rate(TempConvRate::_128s).unwrap();
    let iface = dev.destroy_ds3232();
    let log = iface.log();
    assert_eq!(
        log[0],
        LogEntry::WriteRegister(STATUS, (DS323X_STATUS_POR & !0b0100_0000) | 0b0000_0011)
    );
    assert_eq!(
        log[1],
        LogEntry::WriteRegister(
            STATUS,
            (((DS323X_STATUS_POR & !0b0100_0000) & !0b0010_0000) | 0b0001_0000) | 0b0000_0011
        )
    );
}

#[test]
fn battery_temperature_conversions_ds3234() {
    let mut dev = Ds323x::new_ds3234(MemInterface::new());
    dev.enable_temperature_conversions_on_battery().unwrap();
    dev.disable_temperature_conversions_on_battery().unwrap();
    let iface = dev.destroy_ds3234();
    assert_eq!(iface.log()[0], LogEntry::WriteRegister(0x13, 0x00));
    assert_eq!(iface.log()[1], LogEntry::WriteRegister(0x13, 0x01));
}

#[test]
fn wrapper_returns_inner_device() {
    let dev = Ds323x::new_ds3231(MemInterface::new());
    let wrapper = ds323x::Ds323xWrapper::from(dev);
    let mut dev = wrapper.into_inner();
    dev.set_seconds(5).unwrap();
    let iface = dev.destroy_ds3231();
    assert_eq!(iface.log()[0], LogEntry::WriteRegister(0x00, 0x05));
}
