//! Client side of the NOSEngine simulation bus: buses, data nodes, and I2C,
//! SPI and UART devices.
//!
//! The engine itself is a C library reached through opaque handles. This
//! module holds the decisions that the client makes around each engine
//! call: which call to make, and what the caller gets back from the
//! engine's status. The handles and the calls stay with the code that links
//! the engine.

pub mod i2c;
pub mod spi;
pub mod uart;

use vstd::prelude::*;

verus! {

/// An opaque C struct of the engine (a bus), only ever reached through
/// pointers.
pub struct BusHandle {
    opaque: (),
}

/// An opaque C struct of the engine (a data node), only ever reached through
/// pointers.
pub struct DataNodeHandle {
    opaque: (),
}

/// An opaque C struct of the engine (a message), only ever reached through
/// pointers.
pub struct MessageHandle {
    opaque: (),
}

/// This enum represents all of the different possible errors returned by NOSEngine.
#[derive(Debug, Clone, Copy, PartialEq, Eq)]
#[allow(missing_docs)]
pub enum ErrorCode {
    OK,
    InvalidArg,
    InvalidDest,
    Rejected,
    RoutingFailed,
    InvalidResponseCode,
    Timeout,
    Exception,
    NonException,
    Unimplemented,
    Unknown,
    Count,
}

/// This enum represents any type of error that can occur when interacting with NOSEngine.
#[derive(Debug, Clone, PartialEq)]
pub enum NosError {
    /// An error occurred when converting a Rust string to a C string.
    /// Specifically, the Rust string contained a null character, which cannot be represented
    /// in C strings.
    StringError {
        /// Description from the underlying conversion error
        description: String,
        /// Index in the given string of the problematic null character
        position: usize,
    },
    /// An error was raised by NOSEngine.
    NosEngineError {
        /// What kind of error did NOSEngine raise
        error_code: ErrorCode,
        /// Description of error, from NOSEngine
        description: String,
    },
}

impl NosError {
    /// The description the error carries.
    pub fn description(&self) -> (r: &str)
        ensures
            r@ == match self {
                NosError::StringError { description, .. } => description@,
                NosError::NosEngineError { description, .. } => description@,
            },
    {
        match self {
            NosError::StringError { description, .. } => description.as_str(),
            NosError::NosEngineError { description, .. } => description.as_str(),
        }
    }
}

/// What a call into the engine comes to, from the engine's error code after
/// the call and the engine's description of that error: success when the
/// code is `OK`, else an engine error with that code and description.
pub fn nos_result(code: ErrorCode, description: String) -> (r: Result<(), NosError>)
    ensures
        code == ErrorCode::OK ==> r is Ok,
        code != ErrorCode::OK ==> (r matches Err(
            NosError::NosEngineError { error_code, description: d },
        ) && error_code == code && d@ == description@),
{
    match code {
        ErrorCode::OK => Ok(()),
        _ => Err(NosError::NosEngineError { error_code: code, description }),
    }
}

/// This struct represents one bus on the NOSEngine server.
pub struct Bus {
    /// Name of this bus
    pub name: String,
    /// Connection string to the server
    pub connection: String,
}

/// `DataNode`s send data to each other over buses.
pub struct DataNode {
    /// Name of this data node
    pub name: String,
}

} // verus!
