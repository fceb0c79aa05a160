use ds323x::{Ds323x, Error, Hours, ReadData, Sealed, Transport, WriteData};

/// A transport whose bus always fails, for checking that bus errors are
/// propagated verbatim and that validation fires before the bus is touched.
struct FailingBus;

impl Sealed for FailingBus {}

impl Transport for FailingBus {}

impl ReadData for FailingBus {
    type Error = Error<u8>;

    fn read_register(&mut self, _register: u8) -> Result<u8, Error<u8>> {
        Err(Error::Comm(7))
    }

    fn read_data(&mut self, _start: u8, _count: u8) -> Result<Vec<u8>, Error<u8>> {
        Err(Error::Comm(7))
    }
}

impl WriteData for FailingBus {
    type Error = Error<u8>;

    fn write_register(&mut self, _register: u8, _data: u8) -> Result<(), Error<u8>> {
        Err(Error::Comm(7))
    }

    fn write_data(&mut self, _payload: &Vec<u8>) -> Result<(), Error<u8>> {
        Err(Error::Comm(7))
    }
}

#[test]
fn bus_errors_are_propagated_verbatim() {
    let mut dev = Ds323x::new_ds3231(FailingBus);
    assert!(matches!(dev.seconds(), Err(Error::Comm(7))));
    assert!(matches!(dev.set_seconds(59), Err(Error::Comm(7))));
    assert!(matches!(dev.datetime(), Err(Error::Comm(7))));
    assert!(matches!(dev.running(), Err(Error::Comm(7))));
    assert!(matches!(dev.enable(), Err(Error::Comm(7))));
    assert!(matches!(dev.temperature_quarters(), Err(Error::Comm(7))));
}

#[test]
fn validation_fires_before_the_bus_is_touched() {
    let mut dev = Ds323x::new_ds3231(FailingBus);
    // on a bus that can only fail, these errors show no bus operation ran
    assert!(matches!(dev.set_seconds(60), Err(Error::InvalidInputData)));
    assert!(matches!(
        dev.set_hours(Hours::PM(13)),
        Err(Error::InvalidInputData)
    ));
    assert!(matches!(dev.set_year(2101), Err(Error::InvalidInputData)));
}
