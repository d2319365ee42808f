use kubos_apis::nosengine::i2c::{I2CAction, I2CError, I2CMaster, I2CStatus};
use kubos_apis::nosengine::spi::{SPIAction, SPIDirection, SPIError, SPIMaster, SPISlave, SPIStatus};
use kubos_apis::nosengine::uart::{UARTAction, UARTStatus, UART};
use kubos_apis::nosengine::{nos_result, ErrorCode, NosError};

/// The slave of the SPI test: reads give 0, 1, 2, ...; writes are taken whole.
fn spi_slave_callback(dir: SPIDirection, data: &mut [u8]) -> usize {
    match dir {
        SPIDirection::Write => data.len(),
        SPIDirection::Read => {
            for i in 0..data.len() {
                data[i] = i as u8;
            }
            data.len()
        }
    }
}

/// An SPI bus with one slave, as the engine runs it: reads and writes go
/// to the selected chip, and fail when no known chip is selected.
struct SpiBus {
    slave_cs: u8,
    selected: Option<u8>,
}

impl SpiBus {
    fn perform(&mut self, action: &SPIAction) -> (SPIStatus, Vec<u8>) {
        match action {
            SPIAction::Select { cs } => {
                self.selected = Some(*cs);
                (SPIStatus::Success, vec![])
            }
            SPIAction::Unselect => {
                self.selected = None;
                (SPIStatus::Success, vec![])
            }
            SPIAction::Write { data } => {
                if self.selected != Some(self.slave_cs) {
                    return (SPIStatus::Failure, vec![]);
                }
                let mut buf = data.clone();
                spi_slave_callback(SPIDirection::Write, &mut buf);
                (SPIStatus::Success, vec![])
            }
            SPIAction::Read { len } => {
                let mut buf = vec![0u8; *len];
                if self.selected != Some(self.slave_cs) {
                    return (SPIStatus::Failure, buf);
                }
                spi_slave_callback(SPIDirection::Read, &mut buf);
                (SPIStatus::Success, buf)
            }
        }
    }
}

#[test]
fn spi_test() {
    let master = SPIMaster { connection: "tcp://localhost:12001", bus: "spia" };
    let slave = SPISlave { cs: 1u8, connection: "tcp://localhost:12001", bus: "spia" };
    let mut bus = SpiBus { slave_cs: slave.cs, selected: None };

    bus.perform(&master.chip_select(1u8));
    let (status, _) = bus.perform(&master.write(&[1u8, 2u8, 3u8, 4u8]));
    SPIMaster::write_result(status).unwrap();
    let (status, buf) = bus.perform(&master.read(4));
    let data = SPIMaster::read_result(status, buf).unwrap();
    assert_eq!(data, &[0u8, 1, 2, 3]);
}

#[test]
fn spi_without_chip_fails() {
    let master = SPIMaster { connection: "tcp://localhost:12001", bus: "spib" };
    let mut bus = SpiBus { slave_cs: 1, selected: None };
    let (status, _) = bus.perform(&master.write(&[1u8, 2, 3, 4]));
    assert_eq!(SPIMaster::write_result(status), Err(SPIError::ChipSelectionError));
    bus.perform(&master.chip_select(1));
    bus.perform(&master.chip_unselect());
    let (status, buf) = bus.perform(&master.read(4));
    assert_eq!(SPIMaster::read_result(status, buf), Err(SPIError::ChipSelectionError));
}

#[test]
fn i2c_address_range() {
    assert_eq!(
        I2CMaster::new(7, "tcp://localhost:12001", "i2c").err(),
        Some(I2CError::InvalidAddress { address: 7 })
    );
    assert_eq!(
        I2CMaster::new(128, "tcp://localhost:12001", "i2c").err(),
        Some(I2CError::InvalidAddress { address: 128 })
    );
    let master = I2CMaster::new(9, "tcp://localhost:12001", "i2c").unwrap();
    assert_eq!(master.address, 9);
    assert_eq!(master.read(8, 4), Ok(I2CAction::Read { address: 8, len: 4 }));
    assert_eq!(master.read(127, 1), Ok(I2CAction::Read { address: 127, len: 1 }));
    assert_eq!(master.read(200, 4), Err(I2CError::InvalidAddress { address: 200 }));
    assert_eq!(
        master.write(10, &[1, 2]),
        Ok(I2CAction::Write { address: 10, data: vec![1, 2] })
    );
    assert_eq!(master.write(3, &[1, 2]), Err(I2CError::InvalidAddress { address: 3 }));
    assert_eq!(
        master.transaction(3, &[1], 2),
        I2CAction::Transaction { address: 3, data: vec![1], rx_len: 2 }
    );
}

#[test]
fn i2c_results() {
    assert_eq!(
        I2CMaster::read_result(8, I2CStatus::Success, vec![5, 6, 7, 8]),
        Ok(vec![5, 6, 7, 8])
    );
    assert_eq!(
        I2CMaster::read_result(8, I2CStatus::Failure, vec![0, 0]),
        Err(I2CError::UnknownAddress { address: 8 })
    );
    assert_eq!(I2CMaster::write_result(8, I2CStatus::Success), Ok(()));
    assert_eq!(
        I2CMaster::write_result(9, I2CStatus::Failure),
        Err(I2CError::UnknownAddress { address: 9 })
    );
}

#[test]
fn uart_actions_and_results() {
    let uart = UART {
        name: String::from("uart1"),
        connection: String::from("tcp://localhost:12001"),
        port: 10,
    };
    assert_eq!(uart.write(&[1, 2, 3]), UARTAction::Write { data: vec![1, 2, 3] });
    assert_eq!(uart.putc(12), UARTAction::Putc { c: 12 });
    assert_eq!(uart.getc(), UARTAction::Getc);
    assert_eq!(uart.available(), UARTAction::Available);
    assert_eq!(uart.read(100), UARTAction::Read { max: 100 });
    assert_eq!(UART::getc_result(UARTStatus::Success, 12), Some(12));
    assert_eq!(UART::getc_result(UARTStatus::Failure, 12), None);
    assert_eq!(UART::read_result(100, 4, vec![1, 2, 3, 4, 0, 0]), vec![1, 2, 3, 4]);
    assert_eq!(UART::read_result(4, 0, vec![9, 9]), Vec::<u8>::new());
}

#[test]
fn engine_error_codes() {
    assert_eq!(nos_result(ErrorCode::OK, String::from("fine")), Ok(()));
    let err = nos_result(ErrorCode::InvalidDest, String::from("no such node")).unwrap_err();
    assert_eq!(
        err,
        NosError::NosEngineError {
            error_code: ErrorCode::InvalidDest,
            description: String::from("no such node"),
        }
    );
    assert_eq!(err.description(), "no such node");
}
