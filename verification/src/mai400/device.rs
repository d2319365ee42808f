//! Decisions of the MAI-400 driver: reading a message set from the serial
//! link and splitting it into its three telemetry messages.
//!
//! The device sends, every 250 ms, a 238-byte message set: the standard
//! telemetry message (starting with the sync word), then the 56-byte IREHS
//! message and the 21-byte raw IMU message.

use vstd::prelude::*;
use crate::bytes::byte_sum;
use crate::mai400::rx::{
    aux_message_ok, without_trailer, IREHSTelemetry, RawIMU, StandardTelemetry,
};

verus! {

/// Errors of the MAI-400 driver.
#[derive(Clone, Debug)]
pub enum MAIError {
    /// Catch-all error
    GenericError,
    /// The thread reading messages from the device is no longer working
    ThreadCommError,
    /// A valid message with an unknown ID arrived
    UnknownMessage {
        /// ID of the message
        id: u16,
    },
    /// The serial link failed
    UartError {
        /// What the serial driver reported
        cause: String,
    },
}

/// Result of driver operations.
pub type MAIResult<T> = Result<T, MAIError>;

/// Time allowed for the sync bytes (ms).
pub const SYNC_TIMEOUT_MS: u64 = 250;

/// Time allowed for the rest of the message set (ms).
pub const BODY_TIMEOUT_MS: u64 = 60;

/// Bytes of the message set after the sync word.
pub const BODY_LEN: usize = 236;

/// The sync word as it arrives (little-endian).
pub open spec fn sync_bytes() -> Seq<u8> {
    seq![0x90u8, 0xEBu8]
}

/// What the message-set reader asks its caller to do next.
#[derive(Clone, Debug, PartialEq)]
pub enum MessageRequest {
    /// Read exactly `len` bytes, waiting at most `timeout_ms`
    Read { len: usize, timeout_ms: u64 },
    /// The message set is complete
    Done(Vec<u8>),
    /// The port failed in an unexpected way: stop with that error
    Fail,
}

/// What happened to the last read.
#[derive(Clone, Debug, PartialEq)]
pub enum MessageEvent {
    /// The requested bytes arrived
    Data(Vec<u8>),
    /// The read timed out
    TimedOut,
    /// The read failed otherwise
    ReadFailed,
}

/// State of the message-set reader: the bytes gathered so far and whether
/// the sync word was the last thing asked for.
#[derive(Clone, Debug, PartialEq)]
pub struct MessageReader {
    /// Bytes gathered so far
    pub msg: Vec<u8>,
    /// The sync word was asked for (otherwise the rest of the set was)
    pub awaiting_sync: bool,
}

impl MessageReader {
    /// A reader about to look for the sync word.
    pub fn new() -> (r: MessageReader)
        ensures
            r.msg@.len() == 0,
            r.awaiting_sync,
    {
        MessageReader { msg: Vec::new(), awaiting_sync: true }
    }

    /// The number of bytes the reader asked for.
    pub open spec fn pending(&self) -> nat {
        if self.awaiting_sync {
            2
        } else {
            BODY_LEN as nat
        }
    }

    /// One step of the reading loop. A read sync word other than the
    /// device's is dropped and the sync word asked for again; after the sync
    /// word the rest of the set is asked for and, when it arrives, the set
    /// is complete. A timeout restarts the search for the sync word (bytes
    /// already gathered stay); any other read failure stops the loop.
    pub fn step(self, e: MessageEvent) -> (r: (MessageReader, MessageRequest))
        requires
            e matches MessageEvent::Data(v) ==> v@.len() == self.pending(),
        ensures
            match e {
                MessageEvent::Data(v) => if !self.awaiting_sync {
                    &&& r.1 matches MessageRequest::Done(m) && m@ == self.msg@ + v@
                    &&& r.0.msg@.len() == 0
                    &&& r.0.awaiting_sync
                } else if v@ == sync_bytes() {
                    &&& r.0.msg@ == self.msg@ + v@
                    &&& !r.0.awaiting_sync
                    &&& r.1 == (MessageRequest::Read { len: BODY_LEN, timeout_ms: BODY_TIMEOUT_MS })
                } else {
                    &&& r.0.msg@ == self.msg@
                    &&& r.0.awaiting_sync
                    &&& r.1 == (MessageRequest::Read { len: 2, timeout_ms: SYNC_TIMEOUT_MS })
                },
                MessageEvent::TimedOut => {
                    &&& r.0.msg@ == self.msg@
                    &&& r.0.awaiting_sync
                    &&& r.1 == (MessageRequest::Read { len: 2, timeout_ms: SYNC_TIMEOUT_MS })
                },
                MessageEvent::ReadFailed => {
                    &&& r.1 == MessageRequest::Fail
                    &&& r.0.msg@ == self.msg@
                    &&& r.0.awaiting_sync == self.awaiting_sync
                },
            },
    {
        let sync_read = MessageRequest::Read { len: 2, timeout_ms: SYNC_TIMEOUT_MS };
        match e {
            MessageEvent::Data(v) => {
                let mut msg = self.msg;
                if self.awaiting_sync {
                    if v[0] == 0x90 && v[1] == 0xEB {
                        proof {
                            assert(v@ =~= sync_bytes());
                        }
                        let mut v = v;
                        msg.append(&mut v);
                        (
                            MessageReader { msg, awaiting_sync: false },
                            MessageRequest::Read { len: BODY_LEN, timeout_ms: BODY_TIMEOUT_MS },
                        )
                    } else {
                        (MessageReader { msg, awaiting_sync: true }, sync_read)
                    }
                } else {
                    let mut v = v;
                    msg.append(&mut v);
                    (MessageReader { msg: Vec::new(), awaiting_sync: true }, MessageRequest::Done(msg))
                }
            },
            MessageEvent::TimedOut => (MessageReader { msg: self.msg, awaiting_sync: true }, sync_read),
            MessageEvent::ReadFailed => (self, MessageRequest::Fail),
        }
    }
}

/// Length of the IREHS message at the end of a set, before the IMU message.
pub const IREHS_MSG_LEN: usize = 56;

/// Length of the raw IMU message that ends a set.
pub const IMU_MSG_LEN: usize = 21;

/// Whether a message set can be split: it holds the two auxiliary messages
/// and a standard telemetry message (with checksum) whose byte sum fits in
/// 16 bits.
pub open spec fn message_set_ok(msg: Seq<u8>) -> bool {
    &&& msg.len() >= IREHS_MSG_LEN + IMU_MSG_LEN + 2
    &&& byte_sum(without_trailer(msg.subrange(0, msg.len() - 77))) <= u16::MAX
}

/// Splits a message set into its three messages (last 21 bytes: raw IMU;
/// the 56 before: IREHS; the rest: standard telemetry) and reads each.
pub fn split_message(msg: Vec<u8>) -> (r: (
    Option<StandardTelemetry>,
    Option<RawIMU>,
    Option<IREHSTelemetry>,
))
    requires
        message_set_ok(msg@),
    ensures
        ({
            let n = msg@.len() as int;
            let std_part = msg@.subrange(0, n - 77);
            let irehs_part = msg@.subrange(n - 77, n - 21);
            let imu_part = msg@.subrange(n - 21, n);
            &&& r.0 == (if byte_sum(without_trailer(std_part)) == crate::mai400::rx::trailer_u16(
                std_part,
            ) && without_trailer(std_part).len() >= crate::mai400::rx::STD_TELEM_LEN {
                Some(crate::mai400::rx::standard_telemetry_of(without_trailer(std_part)))
            } else {
                None
            })
            &&& r.1 == (match crate::mai400::rx::aux_payload(imu_part) {
                Some(d) => if d.len() >= crate::mai400::rx::RAW_IMU_LEN {
                    Some(crate::mai400::rx::raw_imu_of(d))
                } else {
                    None
                },
                None => None,
            })
            &&& r.2 == (match crate::mai400::rx::aux_payload(irehs_part) {
                Some(d) => if d.len() >= crate::mai400::rx::IREHS_LEN {
                    Some(crate::mai400::rx::irehs_of(d))
                } else {
                    None
                },
                None => None,
            })
        }),
{
    let ghost m0 = msg@;
    let ghost n = m0.len() as int;
    let mut msg = msg;
    let len: usize = msg.len();
    let imu_bytes: Vec<u8> = msg.split_off(len - IMU_MSG_LEN);
    let imu: Option<RawIMU> = RawIMU::new(imu_bytes);
    let len: usize = msg.len();
    let irehs_bytes: Vec<u8> = msg.split_off(len - IREHS_MSG_LEN);
    let irehs: Option<IREHSTelemetry> = IREHSTelemetry::new(irehs_bytes);
    assert(imu_bytes@ =~= m0.subrange(n - 21, n));
    assert(irehs_bytes@ =~= m0.subrange(n - 77, n - 21));
    assert(msg@ =~= m0.subrange(0, n - 77));
    let std: Option<StandardTelemetry> = StandardTelemetry::new(msg);
    (std, imu, irehs)
}

} // verus!
