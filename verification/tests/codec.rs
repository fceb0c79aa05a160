use ds323x::{
    decimal_to_packed_bcd, get_h24, hours_from_register, hours_to_register, packed_bcd_to_decimal,
    some_or_invalid_error, temperature_from_registers, year_from_registers, Error, Hours,
};

#[test]
fn can_convert_packed_bcd_to_decimal() {
    assert_eq!(0, packed_bcd_to_decimal(0b0000_0000));
    assert_eq!(1, packed_bcd_to_decimal(0b0000_0001));
    assert_eq!(9, packed_bcd_to_decimal(0b0000_1001));
    assert_eq!(10, packed_bcd_to_decimal(0b0001_0000));
    assert_eq!(11, packed_bcd_to_decimal(0b0001_0001));
    assert_eq!(19, packed_bcd_to_decimal(0b0001_1001));
    assert_eq!(20, packed_bcd_to_decimal(0b0010_0000));
    assert_eq!(21, packed_bcd_to_decimal(0b0010_0001));
    assert_eq!(59, packed_bcd_to_decimal(0b0101_1001));
}

#[test]
fn can_convert_decimal_to_packed_bcd() {
    assert_eq!(0b0000_0000, decimal_to_packed_bcd(0));
    assert_eq!(0b0000_0001, decimal_to_packed_bcd(1));
    assert_eq!(0b0000_1001, decimal_to_packed_bcd(9));
    assert_eq!(0b0001_0000, decimal_to_packed_bcd(10));
    assert_eq!(0b0001_0001, decimal_to_packed_bcd(11));
    assert_eq!(0b0001_1001, decimal_to_packed_bcd(19));
    assert_eq!(0b0010_0000, decimal_to_packed_bcd(20));
    assert_eq!(0b0010_0001, decimal_to_packed_bcd(21));
    assert_eq!(0b0101_1001, decimal_to_packed_bcd(59));
}

#[test]
fn bcd_roundtrip_covers_every_value() {
    for n in 0..=99u8 {
        assert_eq!(n, packed_bcd_to_decimal(decimal_to_packed_bcd(n)));
    }
}

#[test]
fn if_some_then_get_inner() {
    match some_or_invalid_error::<u8, ()>(Some(1)) {
        Ok(1) => (),
        _ => panic!(),
    }
}

#[test]
fn if_none_then_error() {
    match some_or_invalid_error::<u8, ()>(None) {
        Err(Error::InvalidDeviceState) => (),
        _ => panic!(),
    }
}

#[test]
fn can_convert_to_h24() {
    assert_eq!(0, get_h24(Hours::H24(0)));
    assert_eq!(0, get_h24(Hours::AM(0)));
    assert_eq!(12, get_h24(Hours::PM(0)));

    assert_eq!(1, get_h24(Hours::H24(1)));
    assert_eq!(1, get_h24(Hours::AM(1)));
    assert_eq!(13, get_h24(Hours::PM(1)));

    assert_eq!(23, get_h24(Hours::H24(23)));
    assert_eq!(12, get_h24(Hours::AM(12)));
    assert_eq!(23, get_h24(Hours::PM(11)));
}

#[test]
fn hour_register_patterns() {
    assert_eq!(0b0010_0001, hours_to_register::<()>(Hours::H24(21)).unwrap());
    assert_eq!(0b0101_0010, hours_to_register::<()>(Hours::AM(12)).unwrap());
    assert_eq!(0b0111_0010, hours_to_register::<()>(Hours::PM(12)).unwrap());
}

#[test]
fn hour_register_roundtrip() {
    assert_eq!(Hours::H24(21), hours_from_register(0b0010_0001));
    assert_eq!(Hours::AM(12), hours_from_register(0b0101_0010));
    assert_eq!(Hours::PM(12), hours_from_register(0b0111_0010));
    for h in 0..=23u8 {
        let reg = hours_to_register::<()>(Hours::H24(h)).unwrap();
        assert_eq!(Hours::H24(h), hours_from_register(reg));
    }
    for h in 1..=12u8 {
        let am = hours_to_register::<()>(Hours::AM(h)).unwrap();
        assert_eq!(Hours::AM(h), hours_from_register(am));
        let pm = hours_to_register::<()>(Hours::PM(h)).unwrap();
        assert_eq!(Hours::PM(h), hours_from_register(pm));
    }
}

#[test]
fn out_of_range_hours_are_rejected() {
    assert!(matches!(
        hours_to_register::<()>(Hours::H24(24)),
        Err(Error::InvalidInputData)
    ));
    assert!(matches!(
        hours_to_register::<()>(Hours::AM(0)),
        Err(Error::InvalidInputData)
    ));
    assert!(matches!(
        hours_to_register::<()>(Hours::AM(13)),
        Err(Error::InvalidInputData)
    ));
    assert!(matches!(
        hours_to_register::<()>(Hours::PM(0)),
        Err(Error::InvalidInputData)
    ));
    assert!(matches!(
        hours_to_register::<()>(Hours::PM(13)),
        Err(Error::InvalidInputData)
    ));
}

#[test]
fn century_register_encoding() {
    assert_eq!(2099, year_from_registers(0b0000_1000, 0x99));
    assert_eq!(2100, year_from_registers(0b1000_1000, 0x00));
    assert_eq!(2000, year_from_registers(0b0000_0001, 0x00));
    assert_eq!(2018, year_from_registers(0b0000_1000, 0x18));
}

#[test]
fn datetime_register_bytes_decode_or_reject() {
    let good = vec![0x58, 0x59, 0x23, 0x02, 0x13, 0x08, 0x18];
    let dt = ds323x::datetime_from_register_bytes::<()>(&good).unwrap();
    assert_eq!(dt.year, 2018);
    assert_eq!(dt.month, 8);
    assert_eq!(dt.day, 13);
    assert_eq!(dt.weekday, 2);
    assert_eq!(dt.hour, Hours::H24(23));
    assert_eq!(dt.minute, 59);
    assert_eq!(dt.second, 58);
    // month byte 0x00 decodes to month 0, out of range
    let bad = vec![0x58, 0x59, 0x23, 0x02, 0x13, 0x00, 0x18];
    assert!(matches!(
        ds323x::datetime_from_register_bytes::<()>(&bad),
        Err(Error::InvalidDeviceState)
    ));
}

#[test]
fn time_register_bytes_decode_or_reject() {
    let t = ds323x::time_from_register_bytes::<()>(&vec![0x58, 0x59, 0x23]).unwrap();
    assert_eq!(t.hour, 23);
    assert_eq!(t.minute, 59);
    assert_eq!(t.second, 58);
    // 12-hour PM(7) converts to 19
    let t12 = ds323x::time_from_register_bytes::<()>(&vec![0x00, 0x00, 0x67]).unwrap();
    assert_eq!(t12.hour, 19);
    // 0x72 is PM(12), which converts past the last hour of the day
    assert!(matches!(
        ds323x::time_from_register_bytes::<()>(&vec![0x00, 0x00, 0x72]),
        Err(Error::InvalidDeviceState)
    ));
}

#[test]
fn date_register_bytes_decode_or_reject() {
    let d = ds323x::date_from_register_bytes::<()>(&vec![0x02, 0x13, 0x88, 0x00]).unwrap();
    assert_eq!(d.year, 2100);
    assert_eq!(d.month, 8);
    assert_eq!(d.day, 13);
    assert_eq!(d.weekday, 2);
    // day byte 0x00 decodes to day 0, out of range
    assert!(matches!(
        ds323x::date_from_register_bytes::<()>(&vec![0x02, 0x00, 0x08, 0x18]),
        Err(Error::InvalidDeviceState)
    ));
}

#[test]
fn framed_bus_write_sets_the_top_address_bit() {
    assert_eq!(
        ds323x::spi_frame_write(&vec![0x0E, 0x1C]),
        vec![0x8E, 0x1C]
    );
    assert_eq!(
        ds323x::spi_frame_write(&vec![0x00, 0x58, 0x59]),
        vec![0x80, 0x58, 0x59]
    );
}

#[test]
fn framed_bus_read_drops_the_echo_byte() {
    assert_eq!(
        ds323x::spi_unframe_read(vec![0x11, 0x7F, 0xC0]),
        vec![0x7F, 0xC0]
    );
}

#[test]
fn temperature_decode_quarter_degrees() {
    assert_eq!(0, temperature_from_registers(0x00, 0x00));
    assert_eq!(-512, temperature_from_registers(0x80, 0x00));
    assert_eq!(511, temperature_from_registers(0x7F, 0xC0));
    assert_eq!(0.0f32, f32::from(temperature_from_registers(0x00, 0x00)) * 0.25);
    assert_eq!(-128.0f32, f32::from(temperature_from_registers(0x80, 0x00)) * 0.25);
    assert_eq!(127.75f32, f32::from(temperature_from_registers(0x7F, 0xC0)) * 0.25);
    assert_eq!(0.25f32, f32::from(temperature_from_registers(0x00, 0x40)) * 0.25);
    assert_eq!(-0.25f32, f32::from(temperature_from_registers(0xFF, 0xC0)) * 0.25);
}
