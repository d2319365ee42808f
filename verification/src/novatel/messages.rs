//! The OEM6 binary message header and the identifiers it carries.

use vstd::prelude::*;
use crate::flags::{empty_list, flag_list, lemma_texts_push, set_flag_names, texts};
use crate::bytes::{
    le_bytes_u16, le_bytes_u32, le_u16_at, lemma_le_u16_of, lemma_le_u32_of, le_u32_at, push_le_u16, push_le_u32,
    read_le_u16, read_le_u32,
};

verus! {

/// Sync bytes that start every binary message.
pub const SYNC: [u8; 3] = [0xAA, 0x44, 0x12];

/// Length of the binary header.
pub const HDR_LEN: u8 = 28;

/// Message identifiers that this library handles.
#[derive(Debug, Copy, Clone, PartialEq, Eq)]
pub enum MessageID {
    /// Log command message (1)
    Log,
    /// Unlog command message (36)
    Unlog,
    /// Unlog all command message (38)
    UnlogAll,
    /// Version data log (37)
    Version,
    /// RX status event data log (94)
    RxStatusEvent,
    /// Best XYZ position/velocity data log (241)
    BestXYZ,
    /// Catch-all value for received messages with an unknown ID (242 on the wire)
    Unknown,
}

/// The identifier that a wire value stands for.
pub open spec fn message_id_of(t: u16) -> MessageID {
    if t == 1 {
        MessageID::Log
    } else if t == 36 {
        MessageID::Unlog
    } else if t == 37 {
        MessageID::Version
    } else if t == 38 {
        MessageID::UnlogAll
    } else if t == 94 {
        MessageID::RxStatusEvent
    } else if t == 241 {
        MessageID::BestXYZ
    } else {
        MessageID::Unknown
    }
}

/// The wire value of an identifier.
pub open spec fn message_id_value(id: MessageID) -> u16 {
    match id {
        MessageID::Log => 1,
        MessageID::Unlog => 36,
        MessageID::UnlogAll => 38,
        MessageID::Version => 37,
        MessageID::RxStatusEvent => 94,
        MessageID::BestXYZ => 241,
        MessageID::Unknown => 242,
    }
}

impl MessageID {
    /// The wire value of this identifier.
    pub fn value(&self) -> (r: u16)
        ensures
            r == message_id_value(*self),
    {
        match self {
            MessageID::Log => 1,
            MessageID::Unlog => 36,
            MessageID::UnlogAll => 38,
            MessageID::Version => 37,
            MessageID::RxStatusEvent => 94,
            MessageID::BestXYZ => 241,
            MessageID::Unknown => 242,
        }
    }

    /// Whether two identifiers are the same.
    pub fn same(&self, other: &MessageID) -> (r: bool)
        ensures
            r == (*self == *other),
    {
        self.value() == other.value()
    }
}

impl Default for MessageID {
    fn default() -> (r: MessageID)
        ensures
            r == MessageID::Unknown,
    {
        MessageID::Unknown
    }
}

impl From<u16> for MessageID {
    fn from(t: u16) -> (r: MessageID) {
        if t == 1 {
            MessageID::Log
        } else if t == 36 {
            MessageID::Unlog
        } else if t == 37 {
            MessageID::Version
        } else if t == 38 {
            MessageID::UnlogAll
        } else if t == 94 {
            MessageID::RxStatusEvent
        } else if t == 241 {
            MessageID::BestXYZ
        } else {
            MessageID::Unknown
        }
    }
}

impl vstd::std_specs::convert::FromSpecImpl<u16> for MessageID {
    open spec fn obeys_from_spec() -> bool {
        true
    }

    open spec fn from_spec(t: u16) -> MessageID {
        message_id_of(t)
    }
}

/// Reading an identifier back from its wire value gives the identifier.
pub proof fn lemma_message_id_roundtrip(id: MessageID)
    ensures
        message_id_of(message_id_value(id)) == id,
{
}

/// Serial ports of the receiver.
#[derive(Copy, Clone, Debug, PartialEq, Eq)]
pub enum Port {
    /// COM1 (32)
    COM1,
    /// The port the command arrived on (192)
    ThisPort,
}

/// The wire value of a port.
pub open spec fn port_value(p: Port) -> u8 {
    match p {
        Port::COM1 => 32,
        Port::ThisPort => 192,
    }
}

impl Port {
    /// The wire value of this port.
    pub fn value(&self) -> (r: u8)
        ensures
            r == port_value(*self),
    {
        match self {
            Port::COM1 => 32,
            Port::ThisPort => 192,
        }
    }
}

/// Mask of all defined receiver status flags.
pub const RECEIVER_STATUS_ALL: u32 = 0xE1FD_6FFF;

/// Receiver status flags (a 32-bit word of which only the defined flags are kept).
#[derive(Clone, Copy, Debug, Default, PartialEq, Eq)]
pub struct ReceiverStatusFlags {
    /// The flag bits
    pub bits: u32,
}

impl ReceiverStatusFlags {
    /// Only defined flags are set.
    pub open spec fn wf(&self) -> bool {
        self.bits & RECEIVER_STATUS_ALL == self.bits
    }

    /// The flags of `bits`, undefined bits dropped.
    pub open spec fn truncated(bits: u32) -> ReceiverStatusFlags {
        ReceiverStatusFlags { bits: bits & RECEIVER_STATUS_ALL }
    }

    /// The flags of `bits`, undefined bits dropped.
    pub fn from_bits_truncate(bits: u32) -> (r: ReceiverStatusFlags)
        ensures
            r == Self::truncated(bits),
            r.wf(),
    {
        proof {
            assert((bits & RECEIVER_STATUS_ALL) & RECEIVER_STATUS_ALL == bits & RECEIVER_STATUS_ALL)
                by (bit_vector);
        }
        ReceiverStatusFlags { bits: bits & RECEIVER_STATUS_ALL }
    }

    /// No flag set.
    pub fn empty() -> (r: ReceiverStatusFlags)
        ensures
            r.bits == 0,
            r.wf(),
    {
        proof {
            assert(0u32 & RECEIVER_STATUS_ALL == 0u32) by (bit_vector);
        }
        ReceiverStatusFlags { bits: 0 }
    }

    /// The flag bits.
    pub fn bits(&self) -> (r: u32)
        ensures
            r == self.bits,
    {
        self.bits
    }
    /// Convert the flags into the names of all flags present, in declaration
    /// order, or `(empty)` when there is none.
    pub fn to_vec(self) -> (r: Vec<String>)
        requires
            self.wf(),
        ensures
            texts(r@) == flag_list(self.bits, receiver_flags(), 25),
    {
        let bits: u32 = self.bits;
        let mut v: Vec<String> = Vec::new();
        let mut i: usize = 0;
        while i < 25
            invariant
                i <= 25,
                bits == self.bits,
                texts(v@) == set_flag_names(bits, receiver_flags(), i as int),
            decreases 25 - i,
        {
            let (mask, name) = receiver_flag_entry(i);
            if bits & mask == mask {
                let s: String = name.to_owned();
                proof {
                    lemma_texts_push(v@, s);
                }
                v.push(s);
            }
            i = i + 1;
        }
        if v.len() == 0 {
            return empty_list();
        }
        v
    }
}

/// The flags of [`ReceiverStatusFlags`] in declaration order: each one's bit and name.
pub open spec fn receiver_flag(i: int) -> (u32, Seq<char>) {
    if i == 0 {
        (0x1u32, "ERROR_PRESENT"@)
    } else if i == 1 {
        (0x2u32, "TEMPERATURE_WARNING"@)
    } else if i == 2 {
        (0x4u32, "VOLTAGE_SUPPLY_WARNING"@)
    } else if i == 3 {
        (0x8u32, "ANTENNA_NOT_POWERED"@)
    } else if i == 4 {
        (0x10u32, "LNA_FAILURE"@)
    } else if i == 5 {
        (0x20u32, "ANTENNA_OPEN"@)
    } else if i == 6 {
        (0x40u32, "ANTENNA_SHORTENED"@)
    } else if i == 7 {
        (0x80u32, "CPU_OVERLOAD"@)
    } else if i == 8 {
        (0x100u32, "COM1_BUFFER_OVERRUN"@)
    } else if i == 9 {
        (0x200u32, "COM2_BUFFER_OVERRUN"@)
    } else if i == 10 {
        (0x400u32, "COM3_BUFFER_OVERRUN"@)
    } else if i == 11 {
        (0x800u32, "LINK_OVERRUN"@)
    } else if i == 12 {
        (0x2000u32, "AUX_TRANSMIT_OVERRUN"@)
    } else if i == 13 {
        (0x4000u32, "AGC_OUT_OF_RANGE"@)
    } else if i == 14 {
        (0x10000u32, "INS_RESET"@)
    } else if i == 15 {
        (0x40000u32, "GPS_ALMANAC_INVALID"@)
    } else if i == 16 {
        (0x80000u32, "POSITION_SOLUTION_INVALID"@)
    } else if i == 17 {
        (0x100000u32, "POSITION_FIXED"@)
    } else if i == 18 {
        (0x200000u32, "CLOCK_STEERING_DISABLED"@)
    } else if i == 19 {
        (0x400000u32, "CLOCK_MODEL_INVALID"@)
    } else if i == 20 {
        (0x800000u32, "EXTERNAL_OSCILLATOR_LOCKED"@)
    } else if i == 21 {
        (0x1000000u32, "SOFTWARE_RESOURCE_WARNING"@)
    } else if i == 22 {
        (0x20000000u32, "AUX3_STATUS_EVENT"@)
    } else if i == 23 {
        (0x40000000u32, "AUX2_STATUS_EVENT"@)
    } else {
        (0x80000000u32, "AUX1_STATUS_EVENT"@)
    }
}

/// Bit and name of flag `i` of [`ReceiverStatusFlags`].
fn receiver_flag_entry(i: usize) -> (r: (u32, &'static str))
    requires
        i < 25,
    ensures
        r.0 == receiver_flag(i as int).0,
        r.1@ == receiver_flag(i as int).1,
{
    match i {
        0 => (0x1, "ERROR_PRESENT"),
        1 => (0x2, "TEMPERATURE_WARNING"),
        2 => (0x4, "VOLTAGE_SUPPLY_WARNING"),
        3 => (0x8, "ANTENNA_NOT_POWERED"),
        4 => (0x10, "LNA_FAILURE"),
        5 => (0x20, "ANTENNA_OPEN"),
        6 => (0x40, "ANTENNA_SHORTENED"),
        7 => (0x80, "CPU_OVERLOAD"),
        8 => (0x100, "COM1_BUFFER_OVERRUN"),
        9 => (0x200, "COM2_BUFFER_OVERRUN"),
        10 => (0x400, "COM3_BUFFER_OVERRUN"),
        11 => (0x800, "LINK_OVERRUN"),
        12 => (0x2000, "AUX_TRANSMIT_OVERRUN"),
        13 => (0x4000, "AGC_OUT_OF_RANGE"),
        14 => (0x10000, "INS_RESET"),
        15 => (0x40000, "GPS_ALMANAC_INVALID"),
        16 => (0x80000, "POSITION_SOLUTION_INVALID"),
        17 => (0x100000, "POSITION_FIXED"),
        18 => (0x200000, "CLOCK_STEERING_DISABLED"),
        19 => (0x400000, "CLOCK_MODEL_INVALID"),
        20 => (0x800000, "EXTERNAL_OSCILLATOR_LOCKED"),
        21 => (0x1000000, "SOFTWARE_RESOURCE_WARNING"),
        22 => (0x20000000, "AUX3_STATUS_EVENT"),
        23 => (0x40000000, "AUX2_STATUS_EVENT"),
        _ => (0x80000000, "AUX1_STATUS_EVENT"),
    }
}

/// The flags of [`ReceiverStatusFlags`] as a table.
pub open spec fn receiver_flags() -> spec_fn(int) -> (u32, Seq<char>) {
    |i: int| receiver_flag(i)
}

/// Header of every binary message.
#[derive(Clone, Copy, Debug, Default, PartialEq)]
pub struct Header {
    /// Sync bytes
    pub sync: [u8; 3],
    /// Header length
    pub hdr_len: u8,
    /// Message ID
    pub msg_id: MessageID,
    /// Message type (bit 7 set for responses)
    pub msg_type: u8,
    /// Port address
    pub port_addr: u8,
    /// Length of the message body
    pub msg_len: u16,
    /// Sequence number
    pub seq: u16,
    /// Processor idle time
    pub idle_time: u8,
    /// Quality of the GPS reference time
    pub time_status: u8,
    /// GPS reference week
    pub week: u16,
    /// Milliseconds from the beginning of the GPS reference week
    pub ms: i32,
    /// Receiver status
    pub recv_status: ReceiverStatusFlags,
    /// Receiver software build number
    pub recv_ver: u16,
}

/// The header that `s` starts with, if it holds a whole one.
pub open spec fn header_of(s: Seq<u8>) -> Option<Header> {
    if s.len() < HDR_LEN {
        None
    } else {
        Some(
            Header {
                sync: [s[0], s[1], s[2]],
                hdr_len: s[3],
                msg_id: message_id_of(le_u16_at(s, 4)),
                msg_type: s[6],
                port_addr: s[7],
                msg_len: le_u16_at(s, 8),
                seq: le_u16_at(s, 10),
                idle_time: s[12],
                time_status: s[13],
                week: le_u16_at(s, 14),
                ms: le_u32_at(s, 16) as i32,
                recv_status: ReceiverStatusFlags::truncated(le_u32_at(s, 20)),
                recv_ver: le_u16_at(s, 26),
            },
        )
    }
}

/// The bytes of a serialized header: the sync bytes (always [`SYNC`]), the
/// fields in order, little-endian, and two reserved zero bytes before the
/// receiver version.
pub open spec fn header_bytes(h: Header) -> Seq<u8> {
    seq![SYNC[0], SYNC[1], SYNC[2], h.hdr_len] + le_bytes_u16(message_id_value(h.msg_id)) + seq![
        h.msg_type,
        h.port_addr,
    ] + le_bytes_u16(h.msg_len) + le_bytes_u16(h.seq) + seq![h.idle_time, h.time_status]
        + le_bytes_u16(h.week) + le_bytes_u32(h.ms as u32) + le_bytes_u32(h.recv_status.bits)
        + seq![0u8, 0u8] + le_bytes_u16(h.recv_ver)
}

/// Parsing a serialized header gives the header back, when its sync bytes
/// are the standard ones and it carries only defined status flags.
proof fn lemma_header_bytes(h: Header)
    ensures
        ({
            let s = header_bytes(h);
            let id = message_id_value(h.msg_id);
            let ms = h.ms as u32;
            let st = h.recv_status.bits;
            &&& s.len() == 28
            &&& s[0] == SYNC[0] && s[1] == SYNC[1] && s[2] == SYNC[2] && s[3] == h.hdr_len
            &&& s[4] == (id % 256) as u8 && s[5] == (id / 256) as u8
            &&& s[6] == h.msg_type && s[7] == h.port_addr
            &&& s[8] == (h.msg_len % 256) as u8 && s[9] == (h.msg_len / 256) as u8
            &&& s[10] == (h.seq % 256) as u8 && s[11] == (h.seq / 256) as u8
            &&& s[12] == h.idle_time && s[13] == h.time_status
            &&& s[14] == (h.week % 256) as u8 && s[15] == (h.week / 256) as u8
            &&& s[16] == (ms % 256) as u8 && s[17] == ((ms / 256) % 256) as u8
            &&& s[18] == ((ms / 65536) % 256) as u8 && s[19] == (ms / 16777216) as u8
            &&& s[20] == (st % 256) as u8 && s[21] == ((st / 256) % 256) as u8
            &&& s[22] == ((st / 65536) % 256) as u8 && s[23] == (st / 16777216) as u8
            &&& s[26] == (h.recv_ver % 256) as u8 && s[27] == (h.recv_ver / 256) as u8
        }),
{
    let id = message_id_value(h.msg_id);
    let a = seq![SYNC[0], SYNC[1], SYNC[2], h.hdr_len] + le_bytes_u16(id);
    let b = a + seq![h.msg_type, h.port_addr] + le_bytes_u16(h.msg_len);
    let c = b + le_bytes_u16(h.seq) + seq![h.idle_time, h.time_status];
    let d = c + le_bytes_u16(h.week) + le_bytes_u32(h.ms as u32);
    let e = d + le_bytes_u32(h.recv_status.bits) + seq![0u8, 0u8];
    let f = e + le_bytes_u16(h.recv_ver);
    assert(a.len() == 6 && a[4] == (id % 256) as u8);
    assert(b.len() == 10);
    assert(c.len() == 14);
    assert(d.len() == 20);
    assert(e.len() == 26);
    assert(f =~= header_bytes(h));
}

/// Parsing a serialized header gives the header back, when its sync bytes
/// are the standard ones and it carries only defined status flags.
pub proof fn lemma_header_roundtrip(h: Header)
    requires
        h.sync == SYNC,
        h.recv_status.wf(),
    ensures
        header_of(header_bytes(h)) == Some(h),
{
    let s = header_bytes(h);
    let id = message_id_value(h.msg_id);
    let ms = h.ms as u32;
    let st = h.recv_status.bits;
    lemma_header_bytes(h);
    lemma_le_u16_of(s, 4, id);
    lemma_le_u16_of(s, 8, h.msg_len);
    lemma_le_u16_of(s, 10, h.seq);
    lemma_le_u16_of(s, 14, h.week);
    lemma_le_u16_of(s, 26, h.recv_ver);
    lemma_le_u32_of(s, 16, ms);
    lemma_le_u32_of(s, 20, st);
    let hm: i32 = h.ms;
    assert((hm as u32) as i32 == hm) by (bit_vector);
    lemma_message_id_roundtrip(h.msg_id);
    let r = header_of(s).unwrap();
    assert(r.sync =~= h.sync);
}

impl Header {
    /// Header for a message sent to the receiver: binary format, primary
    /// antenna, a message (not a response), this port; time fields zero.
    pub open spec fn spec_new(msg_id: MessageID, msg_len: u16) -> Header {
        Header {
            sync: SYNC,
            hdr_len: HDR_LEN,
            msg_id,
            msg_type: 0,
            port_addr: 192,
            msg_len,
            seq: 0,
            idle_time: 0,
            time_status: 0,
            week: 0,
            ms: 0,
            recv_status: ReceiverStatusFlags { bits: 0 },
            recv_ver: 0,
        }
    }

    /// Header for a message sent to the receiver.
    pub fn new(msg_id: MessageID, msg_len: u16) -> (r: Header)
        ensures
            r == Self::spec_new(msg_id, msg_len),
    {
        Header {
            sync: SYNC,
            hdr_len: HDR_LEN,
            msg_id,
            msg_type: 0,
            port_addr: Port::ThisPort.value(),
            msg_len,
            seq: 0,
            idle_time: 0,
            time_status: 0,
            week: 0,
            ms: 0,
            recv_status: ReceiverStatusFlags::empty(),
            recv_ver: 0,
        }
    }

    /// Parses the header at the start of `raw`; `None` when `raw` is shorter
    /// than a header.
    pub fn parse(raw: &[u8]) -> (r: Option<Header>)
        ensures
            r == header_of(raw@),
    {
        if raw.len() < 28 {
            return None;
        }
        Some(
            Header {
                sync: [raw[0], raw[1], raw[2]],
                hdr_len: raw[3],
                msg_id: MessageID::from(read_le_u16(raw, 4)),
                msg_type: raw[6],
                port_addr: raw[7],
                msg_len: read_le_u16(raw, 8),
                seq: read_le_u16(raw, 10),
                idle_time: raw[12],
                time_status: raw[13],
                week: read_le_u16(raw, 14),
                ms: read_le_u32(raw, 16) as i32,
                recv_status: ReceiverStatusFlags::from_bits_truncate(read_le_u32(raw, 20)),
                recv_ver: read_le_u16(raw, 26),
            },
        )
    }

    /// The serialized header.
    pub fn serialize(&self) -> (r: Vec<u8>)
        ensures
            r@ == header_bytes(*self),
            r@.len() == HDR_LEN,
    {
        let mut vec: Vec<u8> = Vec::new();
        vec.push(SYNC[0]);
        vec.push(SYNC[1]);
        vec.push(SYNC[2]);
        vec.push(self.hdr_len);
        push_le_u16(&mut vec, self.msg_id.value());
        vec.push(self.msg_type);
        vec.push(self.port_addr);
        push_le_u16(&mut vec, self.msg_len);
        push_le_u16(&mut vec, self.seq);
        vec.push(self.idle_time);
        vec.push(self.time_status);
        push_le_u16(&mut vec, self.week);
        push_le_u32(&mut vec, self.ms as u32);
        push_le_u32(&mut vec, self.recv_status.bits());
        vec.push(0);
        vec.push(0);
        push_le_u16(&mut vec, self.recv_ver);
        assert(vec@ =~= header_bytes(*self));
        vec
    }
}

} // verus!
