//! UART ports on the simulation bus.

use vstd::prelude::*;

verus! {

/// This enum represents any type of error that can occur when interacting with UART.
#[derive(Debug, Clone, PartialEq)]
pub enum UARTError {
    /// An error occurred when converting a Rust string to a C string.
    /// Specifically, the Rust string contained a null character, which cannot be represented
    /// in C strings.
    StringError {
        /// Description from the underlying conversion error
        description: String,
        /// Index in the given string of the problematic null character
        position: usize,
    },
    /// There was an error when creating the UART.
    UARTCreationError,
}

/// Outcome of a UART operation of the engine.
#[derive(Debug, Clone, Copy, PartialEq, Eq)]
#[allow(missing_docs)]
pub enum UARTStatus {
    Success,
    Failure,
}

/// An opaque C struct of the engine, only ever reached through pointers.
pub struct UARTHandle {
    opaque: (),
}

/// What a UART port asks of the engine.
#[derive(Debug, Clone, PartialEq)]
pub enum UARTAction {
    /// Read at most `max` bytes
    Read {
        /// Most bytes to read
        max: usize,
    },
    /// Write `data`
    Write {
        /// Bytes to write
        data: Vec<u8>,
    },
    /// Write one byte
    Putc {
        /// The byte
        c: u8,
    },
    /// Read one byte
    Getc,
    /// Count the bytes waiting to be read
    Available,
}

/// This struct represents one UART connection.
#[derive(Clone)]
pub struct UART {
    /// The name of this UART port. Must be unique on a bus
    pub name: String,
    /// The connection string to the server
    pub connection: String,
    /// The port number for this UART connection
    pub port: u8,
}

impl UART {
    /// A read of at most `num_bytes` bytes.
    pub fn read(&self, num_bytes: usize) -> (r: UARTAction)
        ensures
            r == (UARTAction::Read { max: num_bytes }),
    {
        UARTAction::Read { max: num_bytes }
    }

    /// What a read of at most `num_bytes` gives, from the buffer and the
    /// count of bytes the engine placed in it: the first `len` bytes.
    pub fn read_result(num_bytes: usize, len: usize, buffer: Vec<u8>) -> (r: Vec<u8>)
        requires
            len <= num_bytes,
            len <= buffer@.len(),
        ensures
            r@ == buffer@.take(len as int),
    {
        let mut buffer = buffer;
        buffer.truncate(len);
        buffer
    }

    /// Write the given bytes to the UART port.
    pub fn write(&self, data: &[u8]) -> (r: UARTAction)
        ensures
            r matches UARTAction::Write { data: d } && d@ == data@,
    {
        UARTAction::Write { data: vstd::slice::slice_to_vec(data) }
    }

    /// Write one individual byte to the UART port.
    pub fn putc(&self, c: u8) -> (r: UARTAction)
        ensures
            r == (UARTAction::Putc { c }),
    {
        UARTAction::Putc { c }
    }

    /// Retrieve one individual byte from the UART port.
    pub fn getc(&self) -> (r: UARTAction)
        ensures
            r == UARTAction::Getc,
    {
        UARTAction::Getc
    }

    /// What a `getc` gives, from the engine's status and the byte it
    /// stored: the byte on success, `None` when no byte was available.
    pub fn getc_result(status: UARTStatus, c: u8) -> (r: Option<u8>)
        ensures
            status == UARTStatus::Success ==> r == Some(c),
            status == UARTStatus::Failure ==> r is None,
    {
        match status {
            UARTStatus::Success => Some(c),
            UARTStatus::Failure => None,
        }
    }

    /// Return the number of bytes waiting to be read by this UART.
    pub fn available(&self) -> (r: UARTAction)
        ensures
            r == UARTAction::Available,
    {
        UARTAction::Available
    }
}

} // verus!
