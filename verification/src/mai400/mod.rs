//! MAI-400 ADACS: command messages, telemetry messages, the rotating
//! telemetry variables and the decisions of the device driver.

pub mod device;
pub mod rotating;
pub mod rx;
pub mod tx;

use vstd::prelude::*;
use crate::bytes::{le_bytes_u16, push_le_u16};

verus! {

/// IRIG-106 sync word
pub const SYNC: u16 = 0xEB90;

/// Sync word of the auxiliary (IMU and IREHS) messages
pub const AUX_SYNC: u16 = 0xEA91;

/// Size of message header (packed)
pub const HDR_SZ: usize = 6;

/// Header for all sent and received messages
#[derive(Clone, Copy, Debug, PartialEq, Eq)]
pub struct MessageHeader {
    /// IRIG-106 sync word
    pub sync: u16,
    /// Length of data in message, not including header or CRC bytes
    pub data_len: u16,
    /// Message ID
    pub msg_id: u8,
    /// Endpoint device address
    pub addr: u8,
}

impl Default for MessageHeader {
    fn default() -> (r: MessageHeader)
        ensures
            r == (MessageHeader { sync: SYNC, data_len: 0, msg_id: 0, addr: 0 }),
    {
        MessageHeader { sync: SYNC, data_len: 0, msg_id: 0, addr: 0 }
    }
}

/// The bytes of a header: sync word and data length (little-endian), ID,
/// address.
pub open spec fn message_header_bytes(h: MessageHeader) -> Seq<u8> {
    le_bytes_u16(h.sync) + le_bytes_u16(h.data_len) + seq![h.msg_id, h.addr]
}

impl MessageHeader {
    /// Serializes the header.
    pub fn serialize(&self) -> (r: Vec<u8>)
        ensures
            r@ == message_header_bytes(*self),
    {
        let mut vec: Vec<u8> = Vec::new();
        push_le_u16(&mut vec, self.sync);
        push_le_u16(&mut vec, self.data_len);
        vec.push(self.msg_id);
        vec.push(self.addr);
        assert(vec@ =~= message_header_bytes(*self));
        vec
    }
}

} // verus!
