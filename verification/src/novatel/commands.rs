//! Commands sent to the receiver, and its responses to them.

use vstd::prelude::*;
use crate::bytes::{
    le_bytes_u16, le_bytes_u32, le_bytes_u64, le_u16_at, le_u32_at, le_u64_at, lemma_le_u16_roundtrip,
    lemma_le_u32_roundtrip, lemma_le_u64_roundtrip, push_le_u16, push_le_u32, push_le_u64,
};
use crate::novatel::messages::{header_bytes, message_id_value, port_value, Header, MessageID, Port};
use crate::text::join_text;
use vstd::string::StrSliceExecFns;
use vstd::utf8::encode_utf8;

verus! {

/// A message that can be sent to the receiver.
pub trait Message {
    /// The bytes of the message (without CRC).
    spec fn spec_serialize(&self) -> Seq<u8>;

    /// Serializes the message.
    fn serialize(&self) -> (r: Vec<u8>)
        ensures
            r@ == self.spec_serialize(),
    ;
}

/// When a requested log is produced.
#[derive(Copy, Clone, Debug, PartialEq, Eq)]
pub enum LogTrigger {
    /// Whenever the data changes (1)
    OnChanged,
    /// Periodically (2)
    OnTime,
    /// Once (4)
    Once,
}

/// The wire value of a trigger.
pub open spec fn trigger_value(t: LogTrigger) -> u32 {
    match t {
        LogTrigger::OnChanged => 1,
        LogTrigger::OnTime => 2,
        LogTrigger::Once => 4,
    }
}

impl LogTrigger {
    /// The wire value of this trigger.
    pub fn value(&self) -> (r: u32)
        ensures
            r == trigger_value(*self),
    {
        match self {
            LogTrigger::OnChanged => 1,
            LogTrigger::OnTime => 2,
            LogTrigger::Once => 4,
        }
    }
}

/// Whether `bits` are those of a double equal to zero (`+0.0` or `-0.0`).
pub open spec fn is_zero_f64(bits: u64) -> bool {
    bits & 0x7FFF_FFFF_FFFF_FFFF == 0
}

/// The trigger of a position log requested every `interval` seconds (the
/// bits of a double): once when the interval is zero, else periodically.
pub fn position_trigger(interval: u64) -> (r: LogTrigger)
    ensures
        is_zero_f64(interval) ==> r == LogTrigger::Once,
        !is_zero_f64(interval) ==> r == LogTrigger::OnTime,
{
    if interval & 0x7FFF_FFFF_FFFF_FFFF == 0 {
        LogTrigger::Once
    } else {
        LogTrigger::OnTime
    }
}

/// LOG command: asks the receiver to produce a log.
///
/// `period` and `offset` are the IEEE-754 bit patterns of the
/// double-precision seconds the command carries.
#[derive(Clone, Copy, Debug)]
pub struct LogCmd {
    hdr: Header,
    port: Port,
    msg_id: MessageID,
    msg_type: u8,
    trigger: LogTrigger,
    period: u64,
    offset: u64,
    hold: bool,
}

impl LogCmd {
    /// The header of the command.
    pub closed spec fn spec_hdr(&self) -> Header {
        self.hdr
    }

    /// The port the log goes to.
    pub closed spec fn spec_port(&self) -> Port {
        self.port
    }

    /// The requested log.
    pub closed spec fn spec_msg_id(&self) -> MessageID {
        self.msg_id
    }

    /// The trigger.
    pub closed spec fn spec_trigger(&self) -> LogTrigger {
        self.trigger
    }

    /// The period (f64 bits).
    pub closed spec fn spec_period(&self) -> u64 {
        self.period
    }

    /// The offset (f64 bits).
    pub closed spec fn spec_offset(&self) -> u64 {
        self.offset
    }

    /// Whether the log survives UNLOGALL.
    pub closed spec fn spec_hold(&self) -> bool {
        self.hold
    }

    /// The message type requested for the log (always binary).
    pub closed spec fn spec_msg_type(&self) -> u8 {
        self.msg_type
    }

    /// A LOG command with a 32-byte body.
    pub fn new(
        port: Port,
        msg_id: MessageID,
        trigger: LogTrigger,
        period: u64,
        offset: u64,
        hold: bool,
    ) -> (r: LogCmd)
        ensures
            r.spec_hdr() == Header::spec_new(MessageID::Log, 32),
            r.spec_port() == port,
            r.spec_msg_id() == msg_id,
            r.spec_msg_type() == 0,
            r.spec_trigger() == trigger,
            r.spec_period() == period,
            r.spec_offset() == offset,
            r.spec_hold() == hold,
    {
        LogCmd {
            hdr: Header::new(MessageID::Log, 32),
            port,
            msg_id,
            msg_type: 0,
            trigger,
            period,
            offset,
            hold,
        }
    }
}

/// Body of a LOG command: port (u32), log ID (u16), message type, a reserved
/// zero byte, trigger (u32), period and offset (f64), hold (u32), all
/// little-endian.
pub open spec fn log_cmd_bytes(c: LogCmd) -> Seq<u8> {
    header_bytes(c.spec_hdr()) + le_bytes_u32(port_value(c.spec_port()) as u32) + le_bytes_u16(
        message_id_value(c.spec_msg_id()),
    ) + seq![c.spec_msg_type(), 0u8] + le_bytes_u32(trigger_value(c.spec_trigger()))
        + le_bytes_u64(c.spec_period()) + le_bytes_u64(c.spec_offset()) + le_bytes_u32(
        if c.spec_hold() {
            1u32
        } else {
            0u32
        },
    )
}

/// Where the fields of a LOG command lie in its bytes: the 28-byte header,
/// then the port at 28, the log ID at 32, the message type at 34, the
/// trigger at 36, the period at 40, the offset at 48 and the hold flag at
/// 56, each little-endian.
pub proof fn lemma_log_cmd_layout(c: LogCmd)
    ensures
        ({
            let s = c.spec_serialize();
            &&& s.len() == 60
            &&& s.subrange(0, 28) == header_bytes(c.spec_hdr())
            &&& le_u32_at(s, 28) == port_value(c.spec_port()) as u32
            &&& le_u16_at(s, 32) == message_id_value(c.spec_msg_id())
            &&& s[34] == c.spec_msg_type()
            &&& s[35] == 0
            &&& le_u32_at(s, 36) == trigger_value(c.spec_trigger())
            &&& le_u64_at(s, 40) == c.spec_period()
            &&& le_u64_at(s, 48) == c.spec_offset()
            &&& le_u32_at(s, 56) == (if c.spec_hold() {
                1u32
            } else {
                0u32
            })
        }),
{
    let s = c.spec_serialize();
    let h = header_bytes(c.spec_hdr());
    let a = le_bytes_u32(port_value(c.spec_port()) as u32);
    let b = le_bytes_u16(message_id_value(c.spec_msg_id()));
    let t = seq![c.spec_msg_type(), 0u8];
    let d = le_bytes_u32(trigger_value(c.spec_trigger()));
    let e = le_bytes_u64(c.spec_period());
    let f = le_bytes_u64(c.spec_offset());
    let hold = if c.spec_hold() {
        1u32
    } else {
        0u32
    };
    let g = le_bytes_u32(hold);
    assert(s == h + a + b + t + d + e + f + g);
    assert(h.len() == 28);
    assert(le_u32_at(s, 28) == port_value(c.spec_port()) as u32) by {
        assert(s =~= h + a + (b + t + d + e + f + g));
        lemma_le_u32_roundtrip(port_value(c.spec_port()) as u32, h, b + t + d + e + f + g);
    }
    assert(le_u16_at(s, 32) == message_id_value(c.spec_msg_id())) by {
        assert(s =~= (h + a) + b + (t + d + e + f + g));
        lemma_le_u16_roundtrip(message_id_value(c.spec_msg_id()), h + a, t + d + e + f + g);
    }
    assert(le_u32_at(s, 36) == trigger_value(c.spec_trigger())) by {
        assert(s =~= (h + a + b + t) + d + (e + f + g));
        lemma_le_u32_roundtrip(trigger_value(c.spec_trigger()), h + a + b + t, e + f + g);
    }
    assert(le_u64_at(s, 40) == c.spec_period()) by {
        assert(s =~= (h + a + b + t + d) + e + (f + g));
        lemma_le_u64_roundtrip(c.spec_period(), h + a + b + t + d, f + g);
    }
    assert(le_u64_at(s, 48) == c.spec_offset()) by {
        lemma_le_u64_roundtrip(c.spec_offset(), h + a + b + t + d + e, g);
    }
    assert(le_u32_at(s, 56) == hold) by {
        assert(s =~= (h + a + b + t + d + e + f) + g + Seq::<u8>::empty());
        lemma_le_u32_roundtrip(hold, h + a + b + t + d + e + f, Seq::<u8>::empty());
    }
    assert(s.subrange(0, 28) =~= h);
}

impl Message for LogCmd {
    open spec fn spec_serialize(&self) -> Seq<u8> {
        log_cmd_bytes(*self)
    }

    fn serialize(&self) -> (r: Vec<u8>) {
        let mut vec: Vec<u8> = self.hdr.serialize();
        push_le_u32(&mut vec, self.port.value() as u32);
        push_le_u16(&mut vec, self.msg_id.value());
        vec.push(self.msg_type);
        vec.push(0x00);
        push_le_u32(&mut vec, self.trigger.value());
        push_le_u64(&mut vec, self.period);
        push_le_u64(&mut vec, self.offset);
        push_le_u32(&mut vec, if self.hold { 1 } else { 0 });
        assert(vec@ =~= log_cmd_bytes(*self));
        vec
    }
}

/// UNLOG command: stops one log.
#[derive(Clone, Copy, Debug)]
pub struct UnlogCmd {
    hdr: Header,
    port: Port,
    msg_id: MessageID,
    msg_type: u8,
}

impl UnlogCmd {
    /// The header of the command.
    pub closed spec fn spec_hdr(&self) -> Header {
        self.hdr
    }

    /// The port of the log.
    pub closed spec fn spec_port(&self) -> Port {
        self.port
    }

    /// The log to stop.
    pub closed spec fn spec_msg_id(&self) -> MessageID {
        self.msg_id
    }

    /// The message type of the log (always binary).
    pub closed spec fn spec_msg_type(&self) -> u8 {
        self.msg_type
    }

    /// An UNLOG command with an 8-byte body.
    pub fn new(port: Port, msg_id: MessageID) -> (r: UnlogCmd)
        ensures
            r.spec_hdr() == Header::spec_new(MessageID::Unlog, 8),
            r.spec_port() == port,
            r.spec_msg_id() == msg_id,
            r.spec_msg_type() == 0,
    {
        UnlogCmd { hdr: Header::new(MessageID::Unlog, 8), port, msg_id, msg_type: 0 }
    }
}

/// Body of an UNLOG command: port (u32), log ID (u16), message type and a
/// reserved zero byte.
pub open spec fn unlog_cmd_bytes(c: UnlogCmd) -> Seq<u8> {
    header_bytes(c.spec_hdr()) + le_bytes_u32(port_value(c.spec_port()) as u32) + le_bytes_u16(
        message_id_value(c.spec_msg_id()),
    ) + seq![c.spec_msg_type(), 0u8]
}

/// Where the fields of an UNLOG command lie in its bytes: the 28-byte
/// header, then the port at 28, the ID of the log to stop at 32 and the
/// message type at 34, each little-endian.
pub proof fn lemma_unlog_cmd_layout(c: UnlogCmd)
    ensures
        ({
            let s = c.spec_serialize();
            &&& s.len() == 36
            &&& s.subrange(0, 28) == header_bytes(c.spec_hdr())
            &&& le_u32_at(s, 28) == port_value(c.spec_port()) as u32
            &&& le_u16_at(s, 32) == message_id_value(c.spec_msg_id())
            &&& s[34] == c.spec_msg_type()
            &&& s[35] == 0
        }),
{
    let s = c.spec_serialize();
    let h = header_bytes(c.spec_hdr());
    let a = le_bytes_u32(port_value(c.spec_port()) as u32);
    let b = le_bytes_u16(message_id_value(c.spec_msg_id()));
    let t = seq![c.spec_msg_type(), 0u8];
    assert(s == h + a + b + t);
    assert(h.len() == 28);
    assert(le_u32_at(s, 28) == port_value(c.spec_port()) as u32) by {
        assert(s =~= h + a + (b + t));
        lemma_le_u32_roundtrip(port_value(c.spec_port()) as u32, h, b + t);
    }
    assert(le_u16_at(s, 32) == message_id_value(c.spec_msg_id())) by {
        lemma_le_u16_roundtrip(message_id_value(c.spec_msg_id()), h + a, t);
    }
    assert(s.subrange(0, 28) =~= h);
}

impl Message for UnlogCmd {
    open spec fn spec_serialize(&self) -> Seq<u8> {
        unlog_cmd_bytes(*self)
    }

    fn serialize(&self) -> (r: Vec<u8>) {
        let mut vec: Vec<u8> = self.hdr.serialize();
        push_le_u32(&mut vec, self.port.value() as u32);
        push_le_u16(&mut vec, self.msg_id.value());
        vec.push(self.msg_type);
        vec.push(0x00);
        assert(vec@ =~= unlog_cmd_bytes(*self));
        vec
    }
}

/// UNLOGALL command: stops all logs of a port.
#[derive(Clone, Copy, Debug)]
pub struct UnlogAllCmd {
    hdr: Header,
    port: u32,
    hold: bool,
}

impl UnlogAllCmd {
    /// The header of the command.
    pub closed spec fn spec_hdr(&self) -> Header {
        self.hdr
    }

    /// The port whose logs stop.
    pub closed spec fn spec_port(&self) -> u32 {
        self.port
    }

    /// Whether held logs stop too.
    pub closed spec fn spec_hold(&self) -> bool {
        self.hold
    }

    /// An UNLOGALL command with an 8-byte body.
    pub fn new(port: u32, hold: bool) -> (r: UnlogAllCmd)
        ensures
            r.spec_hdr() == Header::spec_new(MessageID::UnlogAll, 8),
            r.spec_port() == port,
            r.spec_hold() == hold,
    {
        UnlogAllCmd { hdr: Header::new(MessageID::UnlogAll, 8), port, hold }
    }
}

/// Body of an UNLOGALL command: port and hold flag (u32 each).
pub open spec fn unlog_all_cmd_bytes(c: UnlogAllCmd) -> Seq<u8> {
    header_bytes(c.spec_hdr()) + le_bytes_u32(c.spec_port()) + le_bytes_u32(
        if c.spec_hold() {
            1u32
        } else {
            0u32
        },
    )
}

/// Where the fields of an UNLOGALL command lie in its bytes: the 28-byte
/// header, then the port at 28 and the hold-clearing flag at 32, each
/// little-endian.
pub proof fn lemma_unlog_all_cmd_layout(c: UnlogAllCmd)
    ensures
        ({
            let s = c.spec_serialize();
            &&& s.len() == 36
            &&& s.subrange(0, 28) == header_bytes(c.spec_hdr())
            &&& le_u32_at(s, 28) == c.spec_port()
            &&& le_u32_at(s, 32) == (if c.spec_hold() {
                1u32
            } else {
                0u32
            })
        }),
{
    let s = c.spec_serialize();
    let h = header_bytes(c.spec_hdr());
    let a = le_bytes_u32(c.spec_port());
    let hold = if c.spec_hold() {
        1u32
    } else {
        0u32
    };
    let g = le_bytes_u32(hold);
    assert(s == h + a + g);
    assert(h.len() == 28);
    assert(le_u32_at(s, 28) == c.spec_port()) by {
        lemma_le_u32_roundtrip(c.spec_port(), h, g);
    }
    assert(le_u32_at(s, 32) == hold) by {
        assert(s =~= (h + a) + g + Seq::<u8>::empty());
        lemma_le_u32_roundtrip(hold, h + a, Seq::<u8>::empty());
    }
    assert(s.subrange(0, 28) =~= h);
}

impl Message for UnlogAllCmd {
    open spec fn spec_serialize(&self) -> Seq<u8> {
        unlog_all_cmd_bytes(*self)
    }

    fn serialize(&self) -> (r: Vec<u8>) {
        let mut vec: Vec<u8> = self.hdr.serialize();
        push_le_u32(&mut vec, self.port);
        push_le_u32(&mut vec, if self.hold { 1 } else { 0 });
        assert(vec@ =~= unlog_all_cmd_bytes(*self));
        vec
    }
}

/// The word that names a port in an abbreviated ASCII command.
pub open spec fn port_word(p: Port) -> Seq<char> {
    match p {
        Port::COM1 => "COM1 "@,
        Port::ThisPort => "THISPORT "@,
    }
}

/// The word that names the requested log in an abbreviated ASCII LOG
/// command.
pub open spec fn log_word(id: MessageID) -> Seq<char> {
    match id {
        MessageID::BestXYZ => "BESTXYZB "@,
        MessageID::Log => "LOG "@,
        MessageID::RxStatusEvent => "RXSTATUSEVENT "@,
        MessageID::Unlog => "UNLOG "@,
        MessageID::UnlogAll => "UNLOGALL "@,
        MessageID::Version => "VERSION "@,
        MessageID::Unknown => "UNKNOWN "@,
    }
}

/// The word that names the log to stop in an abbreviated ASCII UNLOG
/// command.
pub open spec fn unlog_word(id: MessageID) -> Seq<char> {
    match id {
        MessageID::BestXYZ => "BESTXYZB "@,
        MessageID::RxStatusEvent => "RXSTATUSEVENT "@,
        MessageID::Version => "VERSION "@,
        _ => "UNKNOWN "@,
    }
}

/// The word that names a trigger in an abbreviated ASCII command.
pub open spec fn trigger_word(t: LogTrigger) -> Seq<char> {
    match t {
        LogTrigger::OnChanged => "ONCHANGED "@,
        LogTrigger::OnTime => "ONTIME "@,
        LogTrigger::Once => "ONCE "@,
    }
}

/// The word for the hold flag in an abbreviated ASCII command.
pub open spec fn hold_word(hold: bool) -> Seq<char> {
    if hold {
        "HOLD "@
    } else {
        "NOHOLD "@
    }
}

/// Text of an abbreviated ASCII LOG command whose period and offset are
/// written `period` and `offset`.
pub open spec fn ascii_log_text(c: LogCmd, period: Seq<char>, offset: Seq<char>) -> Seq<char> {
    "LOG "@ + port_word(c.spec_port()) + log_word(c.spec_msg_id()) + trigger_word(c.spec_trigger())
        + period + " "@ + offset + " "@ + hold_word(c.spec_hold())
}

/// Text of an abbreviated ASCII UNLOG command.
pub open spec fn ascii_unlog_text(c: UnlogCmd) -> Seq<char> {
    "UNLOG "@ + port_word(c.spec_port()) + unlog_word(c.spec_msg_id())
}

fn port_text(p: Port) -> (r: &'static str)
    ensures
        r@ == port_word(p),
{
    match p {
        Port::COM1 => "COM1 ",
        Port::ThisPort => "THISPORT ",
    }
}

fn trigger_text(t: LogTrigger) -> (r: &'static str)
    ensures
        r@ == trigger_word(t),
{
    match t {
        LogTrigger::OnChanged => "ONCHANGED ",
        LogTrigger::OnTime => "ONTIME ",
        LogTrigger::Once => "ONCE ",
    }
}

impl LogCmd {
    /// The command as abbreviated ASCII text (for receivers driven that
    /// way), its period and offset written as `period` and `offset`.
    pub fn serialize_ascii(&self, period: &str, offset: &str) -> (r: Vec<u8>)
        ensures
            r@ == encode_utf8(ascii_log_text(*self, period@, offset@)),
    {
        let msg: &str = match self.msg_id {
            MessageID::BestXYZ => "BESTXYZB ",
            MessageID::Log => "LOG ",
            MessageID::RxStatusEvent => "RXSTATUSEVENT ",
            MessageID::Unlog => "UNLOG ",
            MessageID::UnlogAll => "UNLOGALL ",
            MessageID::Version => "VERSION ",
            MessageID::Unknown => "UNKNOWN ",
        };
        let hold: &str = if self.hold {
            "HOLD "
        } else {
            "NOHOLD "
        };
        let t = join_text("LOG ", port_text(self.port));
        let t = join_text(t.as_str(), msg);
        let t = join_text(t.as_str(), trigger_text(self.trigger));
        let t = join_text(t.as_str(), period);
        let t = join_text(t.as_str(), " ");
        let t = join_text(t.as_str(), offset);
        let t = join_text(t.as_str(), " ");
        let t = join_text(t.as_str(), hold);
        proof {
            assert(t@ =~= ascii_log_text(*self, period@, offset@));
        }
        t.as_str().as_bytes_vec()
    }
}

impl UnlogCmd {
    /// The command as abbreviated ASCII text.
    pub fn serialize_ascii(&self) -> (r: Vec<u8>)
        ensures
            r@ == encode_utf8(ascii_unlog_text(*self)),
    {
        let msg: &str = match self.msg_id {
            MessageID::BestXYZ => "BESTXYZB ",
            MessageID::RxStatusEvent => "RXSTATUSEVENT ",
            MessageID::Version => "VERSION ",
            _ => "UNKNOWN ",
        };
        let t = join_text("UNLOG ", port_text(self.port));
        let t = join_text(t.as_str(), msg);
        proof {
            assert(t@ =~= ascii_unlog_text(*self));
        }
        t.as_str().as_bytes_vec()
    }
}

} // verus!
