//! Verified protocol logic for a set of spacecraft hardware interfaces: the
//! MAI-400 ADACS, the NovAtel OEM6 GPS receiver, the NSL EyeStar duplex (D2)
//! and simplex (S3) radios, and the NOSEngine simulation client.
//!
//! Each device module holds the message formats (framing, checksums,
//! serialization and parsing as functions on bytes) and the decisions that
//! the device drivers make; the serial ports, threads and the simulator
//! library stay outside the crate.

pub mod bytes;
pub mod checksum;
pub mod duplex_d2;
pub mod flags;
pub mod nosengine;
pub mod novatel;
pub mod mai400;
pub mod radio;
pub mod simplex_s3;
pub mod text;
