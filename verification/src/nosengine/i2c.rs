//! I2C masters and slaves on the simulation bus.

use vstd::prelude::*;

verus! {

/// This enum represents any type of error that can occur when interacting with I2C
#[derive(Debug, Clone, PartialEq)]
pub enum I2CError {
    /// An error occurred when converting a Rust string to a C string.
    /// Specifically, the Rust string contained a null character, which cannot be represented
    /// in C strings.
    StringError {
        /// Description from the underlying conversion error
        description: String,
        /// Index in the given string of the problematic null character
        position: usize,
    },
    /// There was an error when creating the I2C.
    I2CCreationError,
    /// This error is raised when an I2C device is created with an invalid address.
    InvalidAddress {
        /// The address which was attempted
        address: u16,
    },
    /// Attempted to read or write to an address that doesn't exist.
    UnknownAddress {
        /// The address which was not found
        address: u16,
    },
}

/// Outcome of an I2C operation of the engine.
#[derive(Debug, Clone, Copy, PartialEq, Eq)]
#[allow(missing_docs)]
pub enum I2CStatus {
    Success,
    Failure,
}

/// Whether the master reads from or writes to a slave.
#[derive(Debug, Clone, Copy, PartialEq, Eq)]
#[allow(missing_docs)]
pub enum I2CDirection {
    Write,
    Read,
}

/// An opaque C struct of the engine, only ever reached through pointers.
pub struct I2CHandle {
    opaque: (),
}

/// Whether `address` is a valid 7-bit I2C device address (8 to 127).
pub open spec fn valid_address(address: u16) -> bool {
    8 <= address <= 127
}

/// What an I2C master asks of the engine.
#[derive(Debug, Clone, PartialEq)]
pub enum I2CAction {
    /// Read `len` bytes from the device at `address`
    Read {
        /// Device address
        address: u16,
        /// Number of bytes
        len: usize,
    },
    /// Write `data` to the device at `address`
    Write {
        /// Device address
        address: u16,
        /// Bytes to write
        data: Vec<u8>,
    },
    /// Write `data`, then read `rx_len` bytes, at `address`
    Transaction {
        /// Device address
        address: u16,
        /// Bytes to write
        data: Vec<u8>,
        /// Number of bytes to read
        rx_len: usize,
    },
}

/// This struct represents a master on an I2C bus.
pub struct I2CMaster<'a> {
    /// NOSEngine connection string
    pub connection: &'a str,
    /// Name of this bus to which this master is connected
    pub bus: &'a str,
    /// Address of this master
    pub address: u16,
}

/// Checks an address as the master does before any use of it.
fn check_address(address: u16) -> (r: Result<(), I2CError>)
    ensures
        valid_address(address) ==> r is Ok,
        !valid_address(address) ==> r == Err::<(), I2CError>(I2CError::InvalidAddress { address }),
{
    if address < 8 || address > 127 {
        Err(I2CError::InvalidAddress { address })
    } else {
        Ok(())
    }
}

impl<'a> I2CMaster<'a> {
    /// A master with the given address on the given bus; `InvalidAddress`
    /// unless the address is between 8 and 127, inclusive. (Opening the
    /// master on the engine comes after this check.)
    pub fn new(address: u16, connection: &'a str, bus: &'a str) -> (r: Result<I2CMaster<'a>, I2CError>)
        ensures
            valid_address(address) ==> (r matches Ok(m) && m.address == address && m.connection
                == connection && m.bus == bus),
            !valid_address(address) ==> (r matches Err(I2CError::InvalidAddress { address: a })
                && a == address),
    {
        match check_address(address) {
            Ok(()) => Ok(I2CMaster { connection, bus, address }),
            Err(e) => Err(e),
        }
    }

    /// A read of `num_bytes` bytes from the device at `address`: the engine
    /// call to make, or `InvalidAddress` when the address is out of range.
    pub fn read(&self, address: u16, num_bytes: usize) -> (r: Result<I2CAction, I2CError>)
        ensures
            valid_address(address) ==> r == Ok::<I2CAction, I2CError>(
                I2CAction::Read { address, len: num_bytes },
            ),
            !valid_address(address) ==> r == Err::<I2CAction, I2CError>(
                I2CError::InvalidAddress { address },
            ),
    {
        match check_address(address) {
            Ok(()) => Ok(I2CAction::Read { address, len: num_bytes }),
            Err(e) => Err(e),
        }
    }

    /// A write of `data` to the device at `address`: the engine call to
    /// make, or `InvalidAddress` when the address is out of range.
    pub fn write(&self, address: u16, data: &[u8]) -> (r: Result<I2CAction, I2CError>)
        ensures
            valid_address(address) ==> (r matches Ok(I2CAction::Write { address: a, data: d })
                && a == address && d@ == data@),
            !valid_address(address) ==> r == Err::<I2CAction, I2CError>(
                I2CError::InvalidAddress { address },
            ),
    {
        match check_address(address) {
            Ok(()) => Ok(I2CAction::Write { address, data: vstd::slice::slice_to_vec(data) }),
            Err(e) => Err(e),
        }
    }

    /// A write of `tx_data` followed by a read of `rx_len` bytes at
    /// `address`: the engine call to make (the address is not checked).
    pub fn transaction(&self, address: u16, tx_data: &[u8], rx_len: usize) -> (r: I2CAction)
        ensures
            r matches I2CAction::Transaction { address: a, data: d, rx_len: n } && a == address
                && d@ == tx_data@ && n == rx_len,
    {
        I2CAction::Transaction { address, data: vstd::slice::slice_to_vec(tx_data), rx_len }
    }

    /// What a read or a transaction at `address` gives, from the engine's
    /// status and the buffer it read into: the buffer on success,
    /// `UnknownAddress` on failure.
    pub fn read_result(address: u16, status: I2CStatus, rbuf: Vec<u8>) -> (r: Result<Vec<u8>, I2CError>)
        ensures
            status == I2CStatus::Success ==> (r matches Ok(v) && v@ == rbuf@),
            status == I2CStatus::Failure ==> r == Err::<Vec<u8>, I2CError>(
                I2CError::UnknownAddress { address },
            ),
    {
        match status {
            I2CStatus::Success => Ok(rbuf),
            I2CStatus::Failure => Err(I2CError::UnknownAddress { address }),
        }
    }

    /// What a write at `address` gives, from the engine's status.
    pub fn write_result(address: u16, status: I2CStatus) -> (r: Result<(), I2CError>)
        ensures
            status == I2CStatus::Success ==> r is Ok,
            status == I2CStatus::Failure ==> r == Err::<(), I2CError>(
                I2CError::UnknownAddress { address },
            ),
    {
        match status {
            I2CStatus::Success => Ok(()),
            I2CStatus::Failure => Err(I2CError::UnknownAddress { address }),
        }
    }
}

/// This struct represents an I2C Slave.
pub struct I2CSlave<'a> {
    /// The NOSEngine connection string
    pub connection: &'a str,
    /// Name of the bus to which this slave is connected
    pub bus: &'a str,
    /// Address of this slave
    pub address: u16,
}

} // verus!
