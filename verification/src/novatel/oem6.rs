//! Decisions of the OEM6 driver: framing of outgoing commands, judging the
//! response to a command, and taking logs from the log queue.

use vstd::prelude::*;
use crate::bytes::{le_u32_at, push_le_u32};
use crate::novatel::commands::Message;
use crate::novatel::crc32::CRC32;
use crate::novatel::logs::{log_body_ok, log_from, Log};
use crate::novatel::messages::{Header, MessageID};
use crate::novatel::reader::{framed, is_response};
use crate::novatel::response::{response_id_of, Response, ResponseID};
use crate::text::{join_text, utf8_error_text, utf8_lossy, utf8_text};
use vstd::utf8::{decode_utf8, valid_utf8};

verus! {

/// Errors of the OEM6 driver.
#[derive(Clone, Debug)]
pub enum OEMError {
    /// Catch-all error
    GenericError,
    /// A queue's lock was poisoned
    MutexError,
    /// The response is for another command
    ResponseMismatch,
    /// No response to the command arrived
    NoResponse,
    /// The read thread is gone
    ThreadCommError,
    /// The receiver refused the command
    CommandError {
        /// Response code
        id: ResponseID,
        /// Text of the response
        description: String,
    },
    /// A message with an unknown ID arrived
    UnknownMessage {
        /// ID of the message
        id: u16,
    },
    /// The serial link failed
    UartError {
        /// What the serial driver reported
        cause: String,
    },
}

/// Result of driver operations.
pub type OEMResult<T> = Result<T, OEMError>;

/// The bytes sent for a command: its serialization followed by its CRC.
pub fn frame_message<T: Message>(msg: &T) -> (r: Vec<u8>)
    ensures
        r@ == framed(msg.spec_serialize()),
{
    let mut raw: Vec<u8> = msg.serialize();
    let crc: u32 = CRC32(0).calc_crc(raw.as_slice()).0;
    push_le_u32(&mut raw, crc);
    raw
}

/// What the driver makes of the message it took from the response queue
/// after sending a command with ID `id`: it must be a response, readable
/// (code and text), to that command, and carry the success code.
pub fn check_response(hdr: &Header, body: &[u8], id: MessageID) -> (r: OEMResult<()>)
    ensures
        !is_response(hdr.msg_type) ==> r matches Err(OEMError::NoResponse),
        is_response(hdr.msg_type) && body@.len() < 4 ==> r matches Err(OEMError::NoResponse),
        is_response(hdr.msg_type) && body@.len() >= 4 && hdr.msg_id != id ==> r matches Err(
            OEMError::ResponseMismatch,
        ),
        is_response(hdr.msg_type) && body@.len() >= 4 && hdr.msg_id == id ==> {
            let code = response_id_of(le_u32_at(body@, 0));
            if code == ResponseID::OK {
                r matches Ok(())
            } else {
                r matches Err(OEMError::CommandError { id: rid, description }) && rid == code
                    && description@ == utf8_lossy(body@.subrange(4, body@.len() as int))
            }
        },
{
    if hdr.msg_type & 0x80 != 0x80 {
        return Err(OEMError::NoResponse);
    }
    let resp: Response = match Response::new(body) {
        Some(v) => v,
        None => {
            return Err(OEMError::NoResponse);
        },
    };
    if !hdr.msg_id.same(&id) {
        return Err(OEMError::ResponseMismatch);
    }
    if !resp.resp_id.is_ok() {
        return Err(OEMError::CommandError { id: resp.resp_id, description: resp.resp_string });
    }
    Ok(())
}

/// What the driver makes of a message taken from the log queue: responses
/// are skipped (`None`), anything else is read as a log of the kind its
/// header names.
pub fn log_from_message(hdr: &Header, body: Vec<u8>) -> (r: Option<Log>)
    requires
        !is_response(hdr.msg_type) ==> log_body_ok(hdr.msg_id, body@),
    ensures
        is_response(hdr.msg_type) ==> r is None,
        !is_response(hdr.msg_type) ==> log_from(
            r,
            hdr.msg_id,
            hdr.recv_status,
            hdr.time_status,
            hdr.week,
            hdr.ms,
            body@,
        ),
{
    if hdr.msg_type & 0x80 == 0x80 {
        return None;
    }
    Log::new(hdr.msg_id, hdr.recv_status, hdr.time_status, hdr.week, hdr.ms, body)
}

/// What the driver does on taking an item, or nothing, from the log queue.
pub enum LogQueueEvent {
    /// A message arrived: its header and body
    Item(Header, Vec<u8>),
    /// Nothing arrived in time
    TimedOut,
    /// The read thread is gone
    Disconnected,
}

/// The driver's decision after looking at the log queue.
#[derive(Clone, Debug)]
pub enum LogWait {
    /// A log to hand to the caller
    Deliver(Log),
    /// Nothing to hand out yet: wait for the next item
    Wait,
    /// Give up with this error
    Fail(OEMError),
}

/// The log a decision hands out, if any.
pub open spec fn delivered(r: LogWait) -> Option<Log> {
    match r {
        LogWait::Deliver(l) => Some(l),
        _ => None,
    }
}

/// One step of waiting for a log: a timeout means waiting on; a gone read
/// thread ends the wait with [`OEMError::ThreadCommError`]; a message is
/// handed out when it is a readable log (see [`log_from_message`]) and
/// skipped otherwise.
pub fn on_log_queue(e: LogQueueEvent) -> (r: LogWait)
    requires
        e matches LogQueueEvent::Item(hdr, body) ==> (!is_response(hdr.msg_type) ==> log_body_ok(
            hdr.msg_id,
            body@,
        )),
    ensures
        match e {
            LogQueueEvent::TimedOut => r is Wait,
            LogQueueEvent::Disconnected => r matches LogWait::Fail(OEMError::ThreadCommError),
            LogQueueEvent::Item(hdr, body) => {
                &&& !(r is Fail)
                &&& is_response(hdr.msg_type) ==> r is Wait
                &&& !is_response(hdr.msg_type) ==> log_from(
                    delivered(r),
                    hdr.msg_id,
                    hdr.recv_status,
                    hdr.time_status,
                    hdr.week,
                    hdr.ms,
                    body@,
                )
            },
        },
{
    match e {
        LogQueueEvent::TimedOut => LogWait::Wait,
        LogQueueEvent::Disconnected => LogWait::Fail(OEMError::ThreadCommError),
        LogQueueEvent::Item(hdr, body) => match log_from_message(&hdr, body) {
            Some(l) => LogWait::Deliver(l),
            None => LogWait::Wait,
        },
    }
}

/// The response code that an abbreviated ASCII response stands for.
pub open spec fn abbreviated_code(text: Seq<char>) -> ResponseID {
    if text == "OK"@ {
        ResponseID::OK
    } else if text == "TRIGGER ALREADY EXISTS; NOT VALID FOR THIS LOG"@ {
        ResponseID::InvalidTrigger
    } else if text == "REQUESTED RATE IS INVALID"@ {
        ResponseID::InvalidRate
    } else if text == "INVALID MESSAGE ID"@ {
        ResponseID::InvalidID
    } else {
        ResponseID::Unknown
    }
}

/// What the driver makes of the well-formed abbreviated response `text`:
/// success for `OK`; else a command error with the code it stands for and
/// the text itself (with a note for an unsupported message ID).
pub open spec fn abbreviated_outcome(r: OEMResult<()>, text: Seq<char>) -> bool {
    let code = abbreviated_code(text);
    if code == ResponseID::OK {
        r is Ok
    } else if code == ResponseID::InvalidID {
        r matches Err(OEMError::CommandError { id, description }) && id == code && description@
            == text + ", not (yet) supported"@
    } else {
        r matches Err(OEMError::CommandError { id, description }) && id == code && description@
            == text
    }
}

/// The response code of the abbreviated response `text`.
fn abbreviated_code_of(text: &String) -> (r: ResponseID)
    ensures
        r == abbreviated_code(text@),
{
    if *text == "OK".to_owned() {
        ResponseID::OK
    } else if *text == "TRIGGER ALREADY EXISTS; NOT VALID FOR THIS LOG".to_owned() {
        ResponseID::InvalidTrigger
    } else if *text == "REQUESTED RATE IS INVALID".to_owned() {
        ResponseID::InvalidRate
    } else if *text == "INVALID MESSAGE ID".to_owned() {
        ResponseID::InvalidID
    } else {
        ResponseID::Unknown
    }
}

/// What the driver makes of an abbreviated ASCII response to a command:
/// bytes that are not UTF-8 give a command error with the unknown code and
/// the decoding error; text is judged as [`abbreviated_outcome`] says.
pub fn abbreviated_response(body: &[u8]) -> (r: OEMResult<()>)
    ensures
        !valid_utf8(body@) ==> (r matches Err(OEMError::CommandError { id, description }) && id
            == ResponseID::Unknown && description@ == "Invalid UTF-8 sequence in response: "@
            + utf8_error_text(body@)),
        valid_utf8(body@) ==> abbreviated_outcome(r, decode_utf8(body@)),
{
    let text: String = match utf8_text(body) {
        Ok(t) => t,
        Err(e) => {
            return Err(
                OEMError::CommandError {
                    id: ResponseID::Unknown,
                    description: join_text("Invalid UTF-8 sequence in response: ", e.as_str()),
                },
            );
        },
    };
    let code = abbreviated_code_of(&text);
    if code.is_ok() {
        Ok(())
    } else if matches!(code, ResponseID::InvalidID) {
        Err(
            OEMError::CommandError {
                id: code,
                description: join_text(text.as_str(), ", not (yet) supported"),
            },
        )
    } else {
        Err(OEMError::CommandError { id: code, description: text })
    }
}

} // verus!
