//! SPI masters and slaves on the simulation bus.

use vstd::prelude::*;

verus! {

/// This enum represents any type of error that can occur when interacting with SPI.
#[derive(Debug, Clone, PartialEq)]
pub enum SPIError {
    /// An error occurred when converting a Rust string to a C string.
    /// Specifically, the Rust string contained a null character, which cannot be represented
    /// in C strings.
    StringError {
        /// Description from the underlying conversion error
        description: String,
        /// Index in the given string of the problematic null character
        position: usize,
    },
    /// There was an error when creating the SPI.
    SPICreationError,
    /// This error is raised when a read or write is attempted when either no chip is selected,
    /// or the selected chip is not found on this bus
    ChipSelectionError,
}

/// This enum represents the success or failure of an SPI action.
#[derive(Debug, Clone, Copy, PartialEq, Eq)]
pub enum SPIStatus {
    /// Success
    Success,
    /// Failure
    Failure,
}

/// This enum represents the type of SPI operation.
#[derive(Debug, Clone, Copy, PartialEq, Eq)]
pub enum SPIDirection {
    /// Write to slave
    Write,
    /// Read from slave
    Read,
}

/// An opaque C struct of the engine, for an SPI master or slave, only ever
/// reached through pointers.
pub struct SPIHandle {
    opaque: (),
}

/// What an SPI master asks of the engine.
#[derive(Debug, Clone, PartialEq)]
pub enum SPIAction {
    /// Read `len` bytes from the selected chip
    Read {
        /// Number of bytes
        len: usize,
    },
    /// Write `data` to the selected chip
    Write {
        /// Bytes to write
        data: Vec<u8>,
    },
    /// Select chip `cs`
    Select {
        /// Chip select number
        cs: u8,
    },
    /// Unselect the current chip
    Unselect,
}

/// Represents a master on an SPI bus.
pub struct SPIMaster<'a> {
    /// NOSEngine connection string
    pub connection: &'a str,
    /// Name of this bus to which this master is connected
    pub bus: &'a str,
}

impl<'a> SPIMaster<'a> {
    /// A read of `num_bytes` bytes from the selected chip.
    pub fn read(&self, num_bytes: usize) -> (r: SPIAction)
        ensures
            r == (SPIAction::Read { len: num_bytes }),
    {
        SPIAction::Read { len: num_bytes }
    }

    /// A write of `data` to the selected chip.
    pub fn write(&self, data: &[u8]) -> (r: SPIAction)
        ensures
            r matches SPIAction::Write { data: d } && d@ == data@,
    {
        SPIAction::Write { data: vstd::slice::slice_to_vec(data) }
    }

    /// Select the device to communicate with.
    pub fn chip_select(&self, cs: u8) -> (r: SPIAction)
        ensures
            r == (SPIAction::Select { cs }),
    {
        SPIAction::Select { cs }
    }

    /// Unselect the current device.
    pub fn chip_unselect(&self) -> (r: SPIAction)
        ensures
            r == SPIAction::Unselect,
    {
        SPIAction::Unselect
    }

    /// What a read gives, from the engine's status and the buffer it read
    /// into: the buffer on success, `ChipSelectionError` when no chip (or
    /// no known chip) is selected.
    pub fn read_result(status: SPIStatus, rbuf: Vec<u8>) -> (r: Result<Vec<u8>, SPIError>)
        ensures
            status == SPIStatus::Success ==> (r matches Ok(v) && v@ == rbuf@),
            status == SPIStatus::Failure ==> r == Err::<Vec<u8>, SPIError>(
                SPIError::ChipSelectionError,
            ),
    {
        match status {
            SPIStatus::Success => Ok(rbuf),
            SPIStatus::Failure => Err(SPIError::ChipSelectionError),
        }
    }

    /// What a write gives, from the engine's status.
    pub fn write_result(status: SPIStatus) -> (r: Result<(), SPIError>)
        ensures
            status == SPIStatus::Success ==> r is Ok,
            status == SPIStatus::Failure ==> r == Err::<(), SPIError>(SPIError::ChipSelectionError),
    {
        match status {
            SPIStatus::Success => Ok(()),
            SPIStatus::Failure => Err(SPIError::ChipSelectionError),
        }
    }
}

/// This struct represents an SPI Slave.
pub struct SPISlave<'a> {
    /// The NOSEngine connection string
    pub connection: &'a str,
    /// Name of the bus to which this slave is connected
    pub bus: &'a str,
    /// Chip select number of this slave
    pub cs: u8,
}

} // verus!
