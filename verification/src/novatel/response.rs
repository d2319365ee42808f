//! Responses of the receiver to commands.

use vstd::prelude::*;
use crate::bytes::{le_u32_at, read_le_u32};
use crate::text::{lossy_string, utf8_lossy};

verus! {

/// Response codes of the receiver.
#[derive(Clone, Copy, Debug, PartialEq, Eq)]
pub enum ResponseID {
    /// Command was received correctly (1)
    OK,
    /// Requested log type does not exist (2)
    LogInvalid,
    /// The request has exceeded some (unspecified) limit (3)
    OutOfResources,
    /// Data packet is not verified (4)
    PacketNotVerified,
    /// Command was attempted, but failed (5)
    CommandFailed,
    /// Input message ID is not valid (6)
    InvalidID,
    /// An input field was invalid (7)
    InvalidField,
    /// The checksum of the sent message was invalid (8)
    InvalidChecksum,
    /// A field is missing from the sent message (9)
    MissingField,
    /// An input field contains more array elements than allowed (10)
    ArrayOverflow,
    /// An input field's value is outside acceptable limits (11)
    ErrorField,
    /// The requested trigger type is invalid for the requested log type (14)
    InvalidTrigger,
    /// Too many authcodes are stored in the receiver (15)
    AuthcodeOverflow,
    /// The date attached to the authcode is not valid (16)
    InvalidDate,
    /// The authcode entered is not valid (17)
    InvalidAuthcode,
    /// The model requested for removal does not exist (18)
    NoModel,
    /// The model attached to the authcode is not valid (19)
    InvalidModel,
    /// The selected channel is invalid (20)
    InvalidChannel,
    /// The requested rate is invalid (21)
    InvalidRate,
    /// The word has no mask for this type of log (22)
    NoMask,
    /// Channels are locked due to an error (23)
    LockedChannels,
    /// The injected time is invalid (24)
    InvalidTime,
    /// The COM/USB port is not supported (25)
    InvalidPort,
    /// The sent message is invalid (26)
    InvalidMessage,
    /// The PRN is invalid (27)
    InvalidPRN,
    /// The PRN is not locked out (28)
    PRNNotLocked,
    /// The PRN lockout list is full (29)
    PRNLockoutOverflow,
    /// The PRN is already locked out (30)
    PRNAlreadyLocked,
    /// Message timed out (31)
    Timeout,
    /// Unknown COM/USB port requested (33)
    UnknownPort,
    /// Hex string not formatted correctly (34)
    BadHex,
    /// The baud rate is invalid (35)
    InvalidBaud,
    /// The sent message is invalid for this model of receiver (36)
    ModelInvalidMessage,
    /// Command is only valid if NVM is in fail mode (40)
    RequiresFailMode,
    /// The offset is invalid (41)
    InvalidOffset,
    /// The maximum number of user messages has been reached (78)
    MessageOverflow,
    /// GPS precise time is already known (84)
    PreciseTimeAlreadyKnown,
    /// Catch-all value for unknown response IDs (85)
    Unknown,
}

/// The response code that a wire value stands for.
pub open spec fn response_id_of(t: u32) -> ResponseID {
    if t == 1 {
        ResponseID::OK
    } else if t == 2 {
        ResponseID::LogInvalid
    } else if t == 3 {
        ResponseID::OutOfResources
    } else if t == 4 {
        ResponseID::PacketNotVerified
    } else if t == 5 {
        ResponseID::CommandFailed
    } else if t == 6 {
        ResponseID::InvalidID
    } else if t == 7 {
        ResponseID::InvalidField
    } else if t == 8 {
        ResponseID::InvalidChecksum
    } else if t == 9 {
        ResponseID::MissingField
    } else if t == 10 {
        ResponseID::ArrayOverflow
    } else if t == 11 {
        ResponseID::ErrorField
    } else if t == 14 {
        ResponseID::InvalidTrigger
    } else if t == 15 {
        ResponseID::AuthcodeOverflow
    } else if t == 16 {
        ResponseID::InvalidDate
    } else if t == 17 {
        ResponseID::InvalidAuthcode
    } else if t == 18 {
        ResponseID::NoModel
    } else if t == 19 {
        ResponseID::InvalidModel
    } else if t == 20 {
        ResponseID::InvalidChannel
    } else if t == 21 {
        ResponseID::InvalidRate
    } else if t == 22 {
        ResponseID::NoMask
    } else if t == 23 {
        ResponseID::LockedChannels
    } else if t == 24 {
        ResponseID::InvalidTime
    } else if t == 25 {
        ResponseID::InvalidPort
    } else if t == 26 {
        ResponseID::InvalidMessage
    } else if t == 27 {
        ResponseID::InvalidPRN
    } else if t == 28 {
        ResponseID::PRNNotLocked
    } else if t == 29 {
        ResponseID::PRNLockoutOverflow
    } else if t == 30 {
        ResponseID::PRNAlreadyLocked
    } else if t == 31 {
        ResponseID::Timeout
    } else if t == 33 {
        ResponseID::UnknownPort
    } else if t == 34 {
        ResponseID::BadHex
    } else if t == 35 {
        ResponseID::InvalidBaud
    } else if t == 36 {
        ResponseID::ModelInvalidMessage
    } else if t == 40 {
        ResponseID::RequiresFailMode
    } else if t == 41 {
        ResponseID::InvalidOffset
    } else if t == 78 {
        ResponseID::MessageOverflow
    } else if t == 84 {
        ResponseID::PreciseTimeAlreadyKnown
    } else {
        ResponseID::Unknown
    }
}

/// The wire value of a response code; the catch-all code counts on from
/// the last known one.
pub open spec fn response_id_value(v: ResponseID) -> u32 {
    match v {
        ResponseID::OK => 1,
        ResponseID::LogInvalid => 2,
        ResponseID::OutOfResources => 3,
        ResponseID::PacketNotVerified => 4,
        ResponseID::CommandFailed => 5,
        ResponseID::InvalidID => 6,
        ResponseID::InvalidField => 7,
        ResponseID::InvalidChecksum => 8,
        ResponseID::MissingField => 9,
        ResponseID::ArrayOverflow => 10,
        ResponseID::ErrorField => 11,
        ResponseID::InvalidTrigger => 14,
        ResponseID::AuthcodeOverflow => 15,
        ResponseID::InvalidDate => 16,
        ResponseID::InvalidAuthcode => 17,
        ResponseID::NoModel => 18,
        ResponseID::InvalidModel => 19,
        ResponseID::InvalidChannel => 20,
        ResponseID::InvalidRate => 21,
        ResponseID::NoMask => 22,
        ResponseID::LockedChannels => 23,
        ResponseID::InvalidTime => 24,
        ResponseID::InvalidPort => 25,
        ResponseID::InvalidMessage => 26,
        ResponseID::InvalidPRN => 27,
        ResponseID::PRNNotLocked => 28,
        ResponseID::PRNLockoutOverflow => 29,
        ResponseID::PRNAlreadyLocked => 30,
        ResponseID::Timeout => 31,
        ResponseID::UnknownPort => 33,
        ResponseID::BadHex => 34,
        ResponseID::InvalidBaud => 35,
        ResponseID::ModelInvalidMessage => 36,
        ResponseID::RequiresFailMode => 40,
        ResponseID::InvalidOffset => 41,
        ResponseID::MessageOverflow => 78,
        ResponseID::PreciseTimeAlreadyKnown => 84,
        ResponseID::Unknown => 85,
    }
}

/// The wire values that name a known response code.
pub open spec fn known_response_code(t: u32) -> bool {
    ||| 1 <= t <= 11
    ||| 14 <= t <= 31
    ||| 33 <= t <= 36
    ||| t == 40
    ||| t == 41
    ||| t == 78
    ||| t == 84
}

/// Reading back the wire value of a response code gives that code.
pub proof fn lemma_response_id_value_roundtrip(v: ResponseID)
    ensures
        response_id_of(response_id_value(v)) == v,
{
}

/// A wire value reads as a known response code exactly when it is one of
/// the known values, and then that code's wire value is the value read.
pub proof fn lemma_response_id_known(t: u32)
    ensures
        response_id_of(t) != ResponseID::Unknown <==> known_response_code(t),
        response_id_of(t) != ResponseID::Unknown ==> response_id_value(response_id_of(t)) == t,
{
}

impl ResponseID {
    /// The wire value of this response code.
    pub fn value(&self) -> (r: u32)
        ensures
            r == response_id_value(*self),
    {
        match self {
            ResponseID::OK => 1,
            ResponseID::LogInvalid => 2,
            ResponseID::OutOfResources => 3,
            ResponseID::PacketNotVerified => 4,
            ResponseID::CommandFailed => 5,
            ResponseID::InvalidID => 6,
            ResponseID::InvalidField => 7,
            ResponseID::InvalidChecksum => 8,
            ResponseID::MissingField => 9,
            ResponseID::ArrayOverflow => 10,
            ResponseID::ErrorField => 11,
            ResponseID::InvalidTrigger => 14,
            ResponseID::AuthcodeOverflow => 15,
            ResponseID::InvalidDate => 16,
            ResponseID::InvalidAuthcode => 17,
            ResponseID::NoModel => 18,
            ResponseID::InvalidModel => 19,
            ResponseID::InvalidChannel => 20,
            ResponseID::InvalidRate => 21,
            ResponseID::NoMask => 22,
            ResponseID::LockedChannels => 23,
            ResponseID::InvalidTime => 24,
            ResponseID::InvalidPort => 25,
            ResponseID::InvalidMessage => 26,
            ResponseID::InvalidPRN => 27,
            ResponseID::PRNNotLocked => 28,
            ResponseID::PRNLockoutOverflow => 29,
            ResponseID::PRNAlreadyLocked => 30,
            ResponseID::Timeout => 31,
            ResponseID::UnknownPort => 33,
            ResponseID::BadHex => 34,
            ResponseID::InvalidBaud => 35,
            ResponseID::ModelInvalidMessage => 36,
            ResponseID::RequiresFailMode => 40,
            ResponseID::InvalidOffset => 41,
            ResponseID::MessageOverflow => 78,
            ResponseID::PreciseTimeAlreadyKnown => 84,
            ResponseID::Unknown => 85,
        }
    }
    /// Whether this is the success code.
    pub fn is_ok(&self) -> (r: bool)
        ensures
            r == (*self == ResponseID::OK),
    {
        match self {
            ResponseID::OK => true,
            _ => false,
        }
    }
}

impl From<u32> for ResponseID {
    fn from(t: u32) -> (r: ResponseID) {
        match t {
            1 => ResponseID::OK,
            2 => ResponseID::LogInvalid,
            3 => ResponseID::OutOfResources,
            4 => ResponseID::PacketNotVerified,
            5 => ResponseID::CommandFailed,
            6 => ResponseID::InvalidID,
            7 => ResponseID::InvalidField,
            8 => ResponseID::InvalidChecksum,
            9 => ResponseID::MissingField,
            10 => ResponseID::ArrayOverflow,
            11 => ResponseID::ErrorField,
            14 => ResponseID::InvalidTrigger,
            15 => ResponseID::AuthcodeOverflow,
            16 => ResponseID::InvalidDate,
            17 => ResponseID::InvalidAuthcode,
            18 => ResponseID::NoModel,
            19 => ResponseID::InvalidModel,
            20 => ResponseID::InvalidChannel,
            21 => ResponseID::InvalidRate,
            22 => ResponseID::NoMask,
            23 => ResponseID::LockedChannels,
            24 => ResponseID::InvalidTime,
            25 => ResponseID::InvalidPort,
            26 => ResponseID::InvalidMessage,
            27 => ResponseID::InvalidPRN,
            28 => ResponseID::PRNNotLocked,
            29 => ResponseID::PRNLockoutOverflow,
            30 => ResponseID::PRNAlreadyLocked,
            31 => ResponseID::Timeout,
            33 => ResponseID::UnknownPort,
            34 => ResponseID::BadHex,
            35 => ResponseID::InvalidBaud,
            36 => ResponseID::ModelInvalidMessage,
            40 => ResponseID::RequiresFailMode,
            41 => ResponseID::InvalidOffset,
            78 => ResponseID::MessageOverflow,
            84 => ResponseID::PreciseTimeAlreadyKnown,
            _ => ResponseID::Unknown,
        }
    }
}

impl vstd::std_specs::convert::FromSpecImpl<u32> for ResponseID {
    open spec fn obeys_from_spec() -> bool {
        true
    }

    open spec fn from_spec(t: u32) -> ResponseID {
        response_id_of(t)
    }
}

/// A response to a command: the response code and the text that follows it.
#[derive(Clone, Debug)]
pub struct Response {
    /// Response code
    pub resp_id: ResponseID,
    /// Text of the response
    pub resp_string: String,
}

impl Response {
    /// Reads a response body: a little-endian u32 code, then text (read as
    /// lossy UTF-8). `None` when the body is shorter than the code.
    pub fn new(msg: &[u8]) -> (r: Option<Response>)
        ensures
            msg@.len() < 4 <==> r is None,
            r matches Some(resp) ==> {
                &&& resp.resp_id == response_id_of(le_u32_at(msg@, 0))
                &&& resp.resp_string@ == utf8_lossy(msg@.subrange(4, msg@.len() as int))
            },
    {
        if msg.len() < 4 {
            return None;
        }
        let code: u32 = read_le_u32(msg, 0);
        let text: String = lossy_string(vstd::slice::slice_subrange(msg, 4, msg.len()));
        Some(Response { resp_id: ResponseID::from(code), resp_string: text })
    }
}

} // verus!
