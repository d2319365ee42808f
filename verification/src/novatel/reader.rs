//! The receive side of the OEM6 serial link.
//!
//! The device interleaves binary messages (sync bytes, header, body, CRC)
//! with abbreviated ASCII responses (starting with `<`). [`ReadThread`] is
//! the decision logic of the reading loop: it asks for bytes, frames and
//! checks messages, and routes them to the log, response and abbreviated
//! response queues. Reading the port and sending to the queues is done by
//! the caller, which reports each outcome back as a [`ReadEvent`].

use vstd::prelude::*;
use crate::bytes::{copy_range, le_bytes_u32, le_u32_at, read_le_u32};
use crate::novatel::crc32::{crc32_of, CRC32};
use crate::novatel::messages::{header_of, Header, HDR_LEN, SYNC};

verus! {

/// Time allowed for the sync bytes and for each ASCII character (ms).
pub const SYNC_TIMEOUT_MS: u64 = 250;

/// Time allowed for the rest of a message (ms).
pub const BODY_TIMEOUT_MS: u64 = 60;

/// Start of an abbreviated ASCII response.
pub const ASCII_START: u8 = 0x3c;

/// Start of a full ASCII message, which ends an abbreviated response.
pub const ASCII_HASH: u8 = 0x23;

/// What the reading loop is doing.
#[derive(Clone, Debug, PartialEq)]
pub enum ReadPhase {
    /// Waiting for the three sync bytes
    Sync,
    /// Collecting an abbreviated ASCII response, one byte at a time
    Ascii(Vec<u8>),
    /// Sync bytes seen; the rest of the header was asked for
    Header(Vec<u8>),
    /// Header read; the body and CRC were asked for
    Body(Header, Vec<u8>),
    /// A message was handed to the abbreviated response queue
    SentAbbrv,
    /// A message was handed to the response queue
    SentResponse,
    /// A message was handed to the log queue
    SentLog,
}

/// State of the reading loop.
#[derive(Clone, Debug, PartialEq)]
pub struct ReadThread {
    /// Current phase
    pub phase: ReadPhase,
    /// The log queue's receiver is gone
    pub log_err: bool,
    /// A response queue's receiver is gone
    pub response_err: bool,
}

/// What the reading loop asks its caller to do next.
#[derive(Clone, Debug, PartialEq)]
pub enum ReadRequest {
    /// Read exactly `len` bytes from the port, waiting at most `timeout_ms`
    Read { len: usize, timeout_ms: u64 },
    /// Try to send an abbreviated ASCII response to its queue
    SendAbbrv(Vec<u8>),
    /// Try to send a response message to its queue
    SendResponse(Header, Vec<u8>),
    /// Try to send a log message to its queue
    SendLog(Header, Vec<u8>),
    /// The port failed in an unexpected way: stop with that error
    Fail,
    /// Both message receivers have disconnected: stop
    Abandon,
}

/// What happened to the last request.
#[derive(Clone, Debug, PartialEq)]
pub enum ReadEvent {
    /// The loop starts
    Start,
    /// The requested bytes arrived
    Data(Vec<u8>),
    /// The read timed out
    TimedOut,
    /// The read failed otherwise
    ReadFailed,
    /// The message was queued
    Sent,
    /// The queue was full; the message was dropped
    QueueFull,
    /// The queue's receiver is gone
    Disconnected,
}

/// Abstract view of [`ReadPhase`].
pub enum PhaseModel {
    Sync,
    Ascii(Seq<u8>),
    Header(Seq<u8>),
    Body(Header, Seq<u8>),
    SentAbbrv,
    SentResponse,
    SentLog,
}

/// Abstract view of [`ReadThread`].
pub struct ReaderModel {
    pub phase: PhaseModel,
    pub log_err: bool,
    pub response_err: bool,
}

/// Abstract view of [`ReadRequest`].
pub enum RequestModel {
    Read { len: nat, timeout_ms: u64 },
    SendAbbrv(Seq<u8>),
    SendResponse(Header, Seq<u8>),
    SendLog(Header, Seq<u8>),
    Fail,
    Abandon,
}

/// Abstract view of [`ReadEvent`].
pub enum EventModel {
    Start,
    Data(Seq<u8>),
    TimedOut,
    ReadFailed,
    Sent,
    QueueFull,
    Disconnected,
}

impl View for ReadPhase {
    type V = PhaseModel;

    open spec fn view(&self) -> PhaseModel {
        match self {
            ReadPhase::Sync => PhaseModel::Sync,
            ReadPhase::Ascii(v) => PhaseModel::Ascii(v@),
            ReadPhase::Header(v) => PhaseModel::Header(v@),
            ReadPhase::Body(h, v) => PhaseModel::Body(*h, v@),
            ReadPhase::SentAbbrv => PhaseModel::SentAbbrv,
            ReadPhase::SentResponse => PhaseModel::SentResponse,
            ReadPhase::SentLog => PhaseModel::SentLog,
        }
    }
}

impl View for ReadThread {
    type V = ReaderModel;

    open spec fn view(&self) -> ReaderModel {
        ReaderModel { phase: self.phase@, log_err: self.log_err, response_err: self.response_err }
    }
}

impl View for ReadRequest {
    type V = RequestModel;

    open spec fn view(&self) -> RequestModel {
        match self {
            ReadRequest::Read { len, timeout_ms } => RequestModel::Read {
                len: *len as nat,
                timeout_ms: *timeout_ms,
            },
            ReadRequest::SendAbbrv(v) => RequestModel::SendAbbrv(v@),
            ReadRequest::SendResponse(h, v) => RequestModel::SendResponse(*h, v@),
            ReadRequest::SendLog(h, v) => RequestModel::SendLog(*h, v@),
            ReadRequest::Fail => RequestModel::Fail,
            ReadRequest::Abandon => RequestModel::Abandon,
        }
    }
}

impl View for ReadEvent {
    type V = EventModel;

    open spec fn view(&self) -> EventModel {
        match self {
            ReadEvent::Start => EventModel::Start,
            ReadEvent::Data(v) => EventModel::Data(v@),
            ReadEvent::TimedOut => EventModel::TimedOut,
            ReadEvent::ReadFailed => EventModel::ReadFailed,
            ReadEvent::Sent => EventModel::Sent,
            ReadEvent::QueueFull => EventModel::QueueFull,
            ReadEvent::Disconnected => EventModel::Disconnected,
        }
    }
}

/// The request that starts a search for sync bytes.
pub open spec fn sync_read() -> RequestModel {
    RequestModel::Read { len: 3, timeout_ms: SYNC_TIMEOUT_MS }
}

/// The number of bytes the current phase asked for, if it asked for bytes.
pub open spec fn pending_read(p: PhaseModel) -> Option<nat> {
    match p {
        PhaseModel::Sync => Some(3),
        PhaseModel::Ascii(_) => Some(1),
        PhaseModel::Header(_) => Some(25),
        PhaseModel::Body(h, _) => Some(h.msg_len as nat + 4),
        _ => None,
    }
}

/// The events that the loop can get in its current phase.
pub open spec fn accepts(p: PhaseModel, e: EventModel) -> bool {
    match e {
        EventModel::Start => p == PhaseModel::Sync,
        EventModel::Data(v) => pending_read(p) == Some(v.len()),
        EventModel::TimedOut | EventModel::ReadFailed => pending_read(p) is Some,
        EventModel::Sent | EventModel::QueueFull | EventModel::Disconnected => pending_read(p) is None,
    }
}

/// Whether the phase is in the middle of a message (header or body read).
pub open spec fn well_formed(p: PhaseModel) -> bool {
    match p {
        PhaseModel::Header(m) => m.len() == 3,
        PhaseModel::Body(h, m) => m.len() == HDR_LEN && header_of(m) == Some(h),
        _ => true,
    }
}

/// The header and body of a complete binary message (header, body, CRC),
/// when its CRC matches.
pub open spec fn frame_contents(m: Seq<u8>) -> Option<(Header, Seq<u8>)> {
    if m.len() < HDR_LEN + 4 {
        None
    } else if le_u32_at(m, m.len() - 4) != crc32_of(m.subrange(0, m.len() - 4)) {
        None
    } else {
        Some((header_of(m).unwrap(), m.subrange(HDR_LEN as int, m.len() - 4)))
    }
}

/// A message ready to send: its bytes followed by their CRC, little-endian.
pub open spec fn framed(raw: Seq<u8>) -> Seq<u8> {
    raw + le_bytes_u32(crc32_of(raw))
}

/// Whether a message of this type is a response to a command.
pub open spec fn is_response(msg_type: u8) -> bool {
    msg_type & 0x80 == 0x80
}

/// One step of the reading loop: the next state and request.
#[verifier::opaque]
pub open spec fn read_step(s: ReaderModel, e: EventModel) -> (ReaderModel, RequestModel) {
    let restart = (ReaderModel { phase: PhaseModel::Sync, ..s }, sync_read());
    match s.phase {
        PhaseModel::Sync => match e {
            EventModel::Data(m) => if m[0] == ASCII_START {
                (
                    ReaderModel { phase: PhaseModel::Ascii(seq![m[1], m[2]]), ..s },
                    RequestModel::Read { len: 1, timeout_ms: SYNC_TIMEOUT_MS },
                )
            } else if m == SYNC@ {
                (
                    ReaderModel { phase: PhaseModel::Header(m), ..s },
                    RequestModel::Read { len: 25, timeout_ms: BODY_TIMEOUT_MS },
                )
            } else {
                restart
            },
            EventModel::ReadFailed => (s, RequestModel::Fail),
            _ => restart,
        },
        PhaseModel::Ascii(acc) => match e {
            EventModel::Data(c) => if c[0] == SYNC[0] || c[0] == ASCII_HASH {
                (ReaderModel { phase: PhaseModel::SentAbbrv, ..s }, RequestModel::SendAbbrv(acc))
            } else {
                (
                    ReaderModel { phase: PhaseModel::Ascii(acc.push(c[0])), ..s },
                    RequestModel::Read { len: 1, timeout_ms: SYNC_TIMEOUT_MS },
                )
            },
            _ => (ReaderModel { phase: PhaseModel::SentAbbrv, ..s }, RequestModel::SendAbbrv(acc)),
        },
        PhaseModel::Header(m) => match e {
            EventModel::Data(rest) => {
                let h = header_of(m + rest).unwrap();
                (
                    ReaderModel { phase: PhaseModel::Body(h, m + rest), ..s },
                    RequestModel::Read { len: h.msg_len as nat + 4, timeout_ms: BODY_TIMEOUT_MS },
                )
            },
            EventModel::ReadFailed => (s, RequestModel::Fail),
            _ => restart,
        },
        PhaseModel::Body(h, m) => match e {
            EventModel::Data(rest) => match frame_contents(m + rest) {
                Some((_, body)) => if is_response(h.msg_type) {
                    (
                        ReaderModel { phase: PhaseModel::SentResponse, ..s },
                        RequestModel::SendResponse(h, body),
                    )
                } else {
                    (ReaderModel { phase: PhaseModel::SentLog, ..s }, RequestModel::SendLog(h, body))
                },
                None => restart,
            },
            EventModel::ReadFailed => (s, RequestModel::Fail),
            _ => restart,
        },
        PhaseModel::SentAbbrv | PhaseModel::SentResponse => match e {
            EventModel::Disconnected => if s.log_err {
                (s, RequestModel::Abandon)
            } else {
                (ReaderModel { phase: PhaseModel::Sync, response_err: true, ..s }, sync_read())
            },
            _ => restart,
        },
        PhaseModel::SentLog => match e {
            EventModel::Disconnected => if s.response_err {
                (s, RequestModel::Abandon)
            } else {
                (ReaderModel { phase: PhaseModel::Sync, log_err: true, ..s }, sync_read())
            },
            _ => restart,
        },
    }
}

} // verus!

verus! {

/// The header at the start of a sequence depends only on its first
/// [`HDR_LEN`] bytes.
pub proof fn lemma_header_of_prefix(a: Seq<u8>, b: Seq<u8>)
    requires
        a.len() >= HDR_LEN,
    ensures
        header_of(a + b) == header_of(a),
{
    let s = a + b;
    assert forall|i: int| 0 <= i < HDR_LEN implies s[i] == a[i] by {}
    assert(s[0] == a[0] && s[1] == a[1] && s[2] == a[2] && s[3] == a[3] && s[4] == a[4]);
    assert(s[5] == a[5] && s[6] == a[6] && s[7] == a[7] && s[8] == a[8] && s[9] == a[9]);
    assert(s[10] == a[10] && s[11] == a[11] && s[12] == a[12] && s[13] == a[13]);
    assert(s[14] == a[14] && s[15] == a[15] && s[16] == a[16] && s[17] == a[17]);
    assert(s[18] == a[18] && s[19] == a[19] && s[20] == a[20] && s[21] == a[21]);
    assert(s[22] == a[22] && s[23] == a[23] && s[26] == a[26] && s[27] == a[27]);
}

impl ReadThread {
    /// A reading loop about to look for sync bytes, with both queues alive.
    pub fn new() -> (r: ReadThread)
        ensures
            r@ == (ReaderModel { phase: PhaseModel::Sync, log_err: false, response_err: false }),
    {
        ReadThread { phase: ReadPhase::Sync, log_err: false, response_err: false }
    }

    /// One step: takes the outcome of the last request and gives the next
    /// state and request (see [`read_step`]).
    pub fn step(self, e: ReadEvent) -> (r: (ReadThread, ReadRequest))
        requires
            accepts(self.phase@, e@),
            well_formed(self.phase@),
        ensures
            (r.0@, r.1@) == read_step(self@, e@),
            well_formed(r.0.phase@),
    {
        proof {
            reveal(read_step);
        }
        let log_err = self.log_err;
        let response_err = self.response_err;
        let restart = ReadRequest::Read { len: 3, timeout_ms: SYNC_TIMEOUT_MS };
        match self.phase {
            ReadPhase::Sync => match e {
                ReadEvent::Data(m) => {
                    if m[0] == ASCII_START {
                        let acc: Vec<u8> = vec![m[1], m[2]];
                        proof {
                            assert(acc@ =~= seq![m@[1], m@[2]]);
                        }
                        (
                            ReadThread { phase: ReadPhase::Ascii(acc), log_err, response_err },
                            ReadRequest::Read { len: 1, timeout_ms: SYNC_TIMEOUT_MS },
                        )
                    } else if m[0] == SYNC[0] && m[1] == SYNC[1] && m[2] == SYNC[2] {
                        proof {
                            assert(m@ =~= SYNC@);
                        }
                        (
                            ReadThread { phase: ReadPhase::Header(m), log_err, response_err },
                            ReadRequest::Read { len: 25, timeout_ms: BODY_TIMEOUT_MS },
                        )
                    } else {
                        (ReadThread { phase: ReadPhase::Sync, log_err, response_err }, restart)
                    }
                },
                ReadEvent::ReadFailed => (
                    ReadThread { phase: ReadPhase::Sync, log_err, response_err },
                    ReadRequest::Fail,
                ),
                _ => (ReadThread { phase: ReadPhase::Sync, log_err, response_err }, restart),
            },
            ReadPhase::Ascii(acc) => match e {
                ReadEvent::Data(c) => {
                    if c[0] == SYNC[0] || c[0] == ASCII_HASH {
                        (
                            ReadThread { phase: ReadPhase::SentAbbrv, log_err, response_err },
                            ReadRequest::SendAbbrv(acc),
                        )
                    } else {
                        let mut acc = acc;
                        acc.push(c[0]);
                        (
                            ReadThread { phase: ReadPhase::Ascii(acc), log_err, response_err },
                            ReadRequest::Read { len: 1, timeout_ms: SYNC_TIMEOUT_MS },
                        )
                    }
                },
                _ => (
                    ReadThread { phase: ReadPhase::SentAbbrv, log_err, response_err },
                    ReadRequest::SendAbbrv(acc),
                ),
            },
            ReadPhase::Header(m) => match e {
                ReadEvent::Data(rest) => {
                    let mut m = m;
                    let mut rest = rest;
                    let ghost m0 = m@;
                    let ghost r0 = rest@;
                    m.append(&mut rest);
                    assert(m@ == m0 + r0);
                    match Header::parse(m.as_slice()) {
                        Some(h) => {
                            let len: usize = h.msg_len as usize + 4;
                            (
                                ReadThread { phase: ReadPhase::Body(h, m), log_err, response_err },
                                ReadRequest::Read { len, timeout_ms: BODY_TIMEOUT_MS },
                            )
                        },
                        None => (ReadThread { phase: ReadPhase::Sync, log_err, response_err }, restart),
                    }
                },
                ReadEvent::ReadFailed => (
                    ReadThread { phase: ReadPhase::Header(m), log_err, response_err },
                    ReadRequest::Fail,
                ),
                _ => (ReadThread { phase: ReadPhase::Sync, log_err, response_err }, restart),
            },
            ReadPhase::Body(h, m) => match e {
                ReadEvent::Data(rest) => {
                    let mut m = m;
                    let mut rest = rest;
                    let ghost m0 = m@;
                    let ghost r0 = rest@;
                    m.append(&mut rest);
                    assert(m@ == m0 + r0);
                    let n: usize = m.len();
                    let crc: u32 = read_le_u32(m.as_slice(), n - 4);
                    let calc: u32 = CRC32(0).calc_crc(vstd::slice::slice_subrange(m.as_slice(), 0, n - 4)).0;
                    proof {
                        lemma_header_of_prefix(m0, r0);
                    }
                    if calc != crc {
                        (ReadThread { phase: ReadPhase::Sync, log_err, response_err }, restart)
                    } else {
                        let body: Vec<u8> = copy_range(m.as_slice(), 28, n - 4);
                        if h.msg_type & 0x80 == 0x80 {
                            (
                                ReadThread { phase: ReadPhase::SentResponse, log_err, response_err },
                                ReadRequest::SendResponse(h, body),
                            )
                        } else {
                            (
                                ReadThread { phase: ReadPhase::SentLog, log_err, response_err },
                                ReadRequest::SendLog(h, body),
                            )
                        }
                    }
                },
                ReadEvent::ReadFailed => (
                    ReadThread { phase: ReadPhase::Body(h, m), log_err, response_err },
                    ReadRequest::Fail,
                ),
                _ => (ReadThread { phase: ReadPhase::Sync, log_err, response_err }, restart),
            },
            ReadPhase::SentAbbrv => match e {
                ReadEvent::Disconnected => {
                    if log_err {
                        (
                            ReadThread { phase: ReadPhase::SentAbbrv, log_err, response_err },
                            ReadRequest::Abandon,
                        )
                    } else {
                        (
                            ReadThread { phase: ReadPhase::Sync, log_err, response_err: true },
                            restart,
                        )
                    }
                },
                _ => (ReadThread { phase: ReadPhase::Sync, log_err, response_err }, restart),
            },
            ReadPhase::SentResponse => match e {
                ReadEvent::Disconnected => {
                    if log_err {
                        (
                            ReadThread { phase: ReadPhase::SentResponse, log_err, response_err },
                            ReadRequest::Abandon,
                        )
                    } else {
                        (
                            ReadThread { phase: ReadPhase::Sync, log_err, response_err: true },
                            restart,
                        )
                    }
                },
                _ => (ReadThread { phase: ReadPhase::Sync, log_err, response_err }, restart),
            },
            ReadPhase::SentLog => match e {
                ReadEvent::Disconnected => {
                    if response_err {
                        (
                            ReadThread { phase: ReadPhase::SentLog, log_err, response_err },
                            ReadRequest::Abandon,
                        )
                    } else {
                        (
                            ReadThread { phase: ReadPhase::Sync, log_err: true, response_err },
                            restart,
                        )
                    }
                },
                _ => (ReadThread { phase: ReadPhase::Sync, log_err, response_err }, restart),
            },
        }
    }
}

} // verus!

verus! {

/// A framed message is accepted by the CRC check, with its header and body.
pub proof fn lemma_frame_contents_framed(h: Header, body: Seq<u8>)
    requires
        h.sync == SYNC,
        h.recv_status.wf(),
    ensures
        frame_contents(framed(crate::novatel::messages::header_bytes(h) + body)) == Some((h, body)),
{
    let hb = crate::novatel::messages::header_bytes(h);
    crate::novatel::messages::lemma_header_roundtrip(h);
    assert(hb.len() == HDR_LEN);
    let raw = hb + body;
    let c = le_bytes_u32(crc32_of(raw));
    let m = framed(raw);
    assert(m.subrange(0, m.len() - 4) =~= raw);
    assert(m =~= raw + c + Seq::<u8>::empty());
    crate::bytes::lemma_le_u32_roundtrip(crc32_of(raw), raw, Seq::<u8>::empty());
    assert(m.subrange(HDR_LEN as int, m.len() - 4) =~= body);
    lemma_header_of_prefix(hb, body + c);
    assert(m =~= hb + (body + c));
}

proof fn lemma_step_sync(s: ReaderModel, c: Seq<u8>)
    requires
        s.phase == PhaseModel::Sync,
        c =~= SYNC@,
    ensures
        read_step(s, EventModel::Data(c)) == (
            ReaderModel { phase: PhaseModel::Header(c), ..s },
            RequestModel::Read { len: 25, timeout_ms: BODY_TIMEOUT_MS },
        ),
{
    reveal(read_step);
}

proof fn lemma_step_header(s: ReaderModel, c1: Seq<u8>, c2: Seq<u8>, h: Header)
    requires
        s.phase == PhaseModel::Header(c1),
        header_of(c1 + c2) == Some(h),
    ensures
        read_step(s, EventModel::Data(c2)) == (
            ReaderModel { phase: PhaseModel::Body(h, c1 + c2), ..s },
            RequestModel::Read { len: h.msg_len as nat + 4, timeout_ms: BODY_TIMEOUT_MS },
        ),
{
    reveal(read_step);
}

proof fn lemma_step_body(s: ReaderModel, m: Seq<u8>, c3: Seq<u8>, h: Header, body: Seq<u8>)
    requires
        s.phase == PhaseModel::Body(h, m),
        frame_contents(m + c3) == Some((h, body)),
    ensures
        read_step(s, EventModel::Data(c3)).1 == if is_response(h.msg_type) {
            RequestModel::SendResponse(h, body)
        } else {
            RequestModel::SendLog(h, body)
        },
{
    reveal(read_step);
}

/// The loop always asks for what it can take next: after a step, a read
/// request asks for exactly the bytes the new phase expects, and a request
/// to queue a message leaves the loop waiting for the queue's answer; so a
/// caller that reports each request's outcome always gives the loop an
/// event it accepts.
pub proof fn lemma_requests_match_phase(s: ReaderModel, e: EventModel)
    requires
        accepts(s.phase, e),
        well_formed(s.phase),
    ensures
        ({
            let (s2, r) = read_step(s, e);
            &&& r matches RequestModel::Read { len, .. } ==> pending_read(s2.phase) == Some(len)
            &&& (r is SendAbbrv || r is SendResponse || r is SendLog) ==> pending_read(s2.phase) is None
        }),
{
    reveal(read_step);
}

/// A binary message framed with its CRC and read by the loop in the chunks
/// it asks for (sync, rest of header, body and CRC) is handed, with its
/// header and body, to the response queue if its type marks it as a
/// response and to the log queue otherwise.
pub proof fn lemma_reader_delivers_framed(s: ReaderModel, h: Header, body: Seq<u8>)
    requires
        s.phase == PhaseModel::Sync,
        h.sync == SYNC,
        h.recv_status.wf(),
        body.len() == h.msg_len,
    ensures
        ({
            let m = framed(crate::novatel::messages::header_bytes(h) + body);
            let (s1, r1) = read_step(s, EventModel::Data(m.subrange(0, 3)));
            let (s2, r2) = read_step(s1, EventModel::Data(m.subrange(3, 28)));
            let (s3, r3) = read_step(s2, EventModel::Data(m.subrange(28, m.len() as int)));
            &&& r1 == (RequestModel::Read { len: 25, timeout_ms: BODY_TIMEOUT_MS })
            &&& accepts(s1.phase, EventModel::Data(m.subrange(3, 28)))
            &&& r2 == (RequestModel::Read { len: h.msg_len as nat + 4, timeout_ms: BODY_TIMEOUT_MS })
            &&& accepts(s2.phase, EventModel::Data(m.subrange(28, m.len() as int)))
            &&& r3 == if is_response(h.msg_type) {
                RequestModel::SendResponse(h, body)
            } else {
                RequestModel::SendLog(h, body)
            }
        }),
{
    let hb = crate::novatel::messages::header_bytes(h);
    crate::novatel::messages::lemma_header_roundtrip(h);
    assert(hb.len() == HDR_LEN);
    let m = framed(hb + body);
    assert(m.len() == 28 + h.msg_len + 4);
    assert(hb[0] == SYNC[0] && hb[1] == SYNC[1] && hb[2] == SYNC[2]);
    let c1 = m.subrange(0, 3);
    let c2 = m.subrange(3, 28);
    let c3 = m.subrange(28, m.len() as int);
    assert(c1 =~= SYNC@);
    lemma_step_sync(s, c1);
    let s1 = ReaderModel { phase: PhaseModel::Header(c1), ..s };
    assert(c1 + c2 =~= hb);
    lemma_step_header(s1, c1, c2, h);
    let s2 = ReaderModel { phase: PhaseModel::Body(h, c1 + c2), ..s };
    assert(hb + c3 =~= m);
    lemma_frame_contents_framed(h, body);
    lemma_step_body(s2, c1 + c2, c3, h, body);
}

} // verus!
