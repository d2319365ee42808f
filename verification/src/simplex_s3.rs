//! NSL EyeStar-S3 simplex radio: sending a beacon.
//!
//! A beacon is three `0x50` bytes followed by at most 35 bytes of message.
//! The radio answers each transmission with a three-byte reply; the driver
//! sends the beacon again after anything but an ACK, five times in all.

use vstd::prelude::*;

verus! {

/// Reply of the radio when it took the beacon.
pub const ACK: [u8; 3] = [0xAA, 0x05, 0x00];

/// Reply of the radio when it refused the beacon.
pub const NAK: [u8; 3] = [0xAA, 0x05, 0xFF];

/// Length of a reply of the radio.
pub const RESP_LEN: u8 = 3;

/// Most message bytes a beacon can carry.
pub const MAX_BEACON_LEN: usize = 35;

/// Most transmissions of one beacon.
pub const MAX_ATTEMPTS: usize = 5;

/// Errors of the beacon logic.
#[derive(Clone, Copy, Debug, PartialEq, Eq)]
pub enum SimplexError {
    /// The message is longer than a beacon can carry
    PacketTooLarge,
    /// No transmission was acknowledged
    SendFailed,
}

impl SimplexError {
    /// Text of the error.
    pub fn to_string(&self) -> (r: String)
        ensures
            r@ == match self {
                SimplexError::PacketTooLarge => "Packet too large"@,
                SimplexError::SendFailed => "Failed to send message"@,
            },
    {
        match self {
            SimplexError::PacketTooLarge => "Packet too large".to_owned(),
            SimplexError::SendFailed => "Failed to send message".to_owned(),
        }
    }
}

/// What to do after a reply of the radio.
#[derive(Clone, Copy, Debug, PartialEq, Eq)]
pub enum BeaconStep {
    /// The beacon was acknowledged; done
    Sent,
    /// Transmit the beacon again
    Retry,
    /// Give up: the last attempt was not acknowledged
    Failed,
}

/// The bytes transmitted for the message `msg`.
pub open spec fn beacon_bytes(msg: Seq<u8>) -> Seq<u8> {
    seq![0x50u8, 0x50u8, 0x50u8] + msg
}

/// Whether `reply` is the radio's ACK.
pub open spec fn is_ack(reply: Seq<u8>) -> bool {
    reply == seq![0xAAu8, 0x05u8, 0x00u8]
}

/// One beacon on its way: the bytes to transmit, and how many
/// transmissions have been answered.
pub struct BeaconSender {
    packet: Vec<u8>,
    attempts: usize,
}

impl BeaconSender {
    /// The bytes transmitted on each attempt.
    pub closed spec fn spec_packet(&self) -> Seq<u8> {
        self.packet@
    }

    /// Number of transmissions answered so far.
    pub closed spec fn spec_attempts(&self) -> nat {
        self.attempts as nat
    }

    /// Prepares the beacon for `msg`; `PacketTooLarge` when `msg` has more
    /// than 35 bytes.
    pub fn new(msg: &[u8]) -> (r: Result<BeaconSender, SimplexError>)
        ensures
            msg@.len() > MAX_BEACON_LEN ==> r == Err::<BeaconSender, SimplexError>(
                SimplexError::PacketTooLarge,
            ),
            msg@.len() <= MAX_BEACON_LEN ==> (r matches Ok(s) && s.spec_packet() == beacon_bytes(
                msg@,
            ) && s.spec_attempts() == 0),
    {
        if msg.len() > MAX_BEACON_LEN {
            return Err(SimplexError::PacketTooLarge);
        }
        let mut packet: Vec<u8> = Vec::new();
        packet.push(0x50);
        packet.push(0x50);
        packet.push(0x50);
        let mut i: usize = 0;
        while i < msg.len()
            invariant
                i <= msg@.len(),
                packet@ == seq![0x50u8, 0x50u8, 0x50u8] + msg@.take(i as int),
            decreases msg@.len() - i,
        {
            packet.push(msg[i]);
            i = i + 1;
            assert(msg@.take(i as int) =~= msg@.take(i - 1).push(msg@[i - 1]));
        }
        assert(msg@.take(msg@.len() as int) =~= msg@);
        Ok(BeaconSender { packet, attempts: 0 })
    }

    /// The bytes to transmit.
    pub fn packet(&self) -> (r: &[u8])
        ensures
            r@ == self.spec_packet(),
    {
        self.packet.as_slice()
    }

    /// Takes the radio's reply to a transmission: done on an ACK; else
    /// transmit again, unless this was the fifth transmission.
    pub fn on_reply(&mut self, reply: &[u8]) -> (r: BeaconStep)
        requires
            old(self).spec_attempts() < MAX_ATTEMPTS,
        ensures
            final(self).spec_packet() == old(self).spec_packet(),
            final(self).spec_attempts() == old(self).spec_attempts() + 1,
            is_ack(reply@) ==> r == BeaconStep::Sent,
            !is_ack(reply@) && final(self).spec_attempts() < MAX_ATTEMPTS ==> r == BeaconStep::Retry,
            !is_ack(reply@) && final(self).spec_attempts() == MAX_ATTEMPTS ==> r
                == BeaconStep::Failed,
    {
        self.attempts = self.attempts + 1;
        let ack: bool = reply.len() == 3 && reply[0] == ACK[0] && reply[1] == ACK[1] && reply[2]
            == ACK[2];
        proof {
            if ack {
                assert(reply@ =~= seq![0xAAu8, 0x05u8, 0x00u8]);
            }
        }
        if ack {
            BeaconStep::Sent
        } else if self.attempts < MAX_ATTEMPTS {
            BeaconStep::Retry
        } else {
            BeaconStep::Failed
        }
    }
}

} // verus!
