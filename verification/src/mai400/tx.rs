//! Commands sent to the MAI-400. Every command is 38 bytes, followed on the
//! wire by the 16-bit sum of its bytes.

use vstd::prelude::*;
use crate::bytes::{byte_sum, checksum16, le_bytes_u16, le_bytes_u32, push_le_u16, push_le_u32, push_zeros};
use crate::mai400::SYNC;

verus! {

/// Length of every command.
pub const CMD_LEN: usize = 38;

/// A command for the device.
pub trait Message {
    /// The bytes of the command (without checksum).
    spec fn spec_serialize(&self) -> Seq<u8>;

    /// Serializes the command.
    fn serialize(&self) -> (r: Vec<u8>)
        ensures
            r@ == self.spec_serialize(),
    ;
}

/// `n` zero bytes.
pub open spec fn zeros(n: nat) -> Seq<u8> {
    Seq::new(n, |i: int| 0u8)
}

/// The sum of `n` bytes is at most `255 * n`.
pub proof fn lemma_byte_sum_bound(s: Seq<u8>)
    ensures
        byte_sum(s) <= 255 * s.len(),
    decreases s.len(),
{
    if s.len() > 0 {
        lemma_byte_sum_bound(s.drop_last());
    }
}

/// The bytes sent for a command: the command and the little-endian 16-bit
/// sum of its bytes.
pub open spec fn with_checksum(raw: Seq<u8>) -> Seq<u8> {
    raw + le_bytes_u16(byte_sum(raw) as u16)
}

/// The bytes sent for a command (the device driver's `send_message`).
pub fn frame_message<T: Message>(msg: &T) -> (r: Vec<u8>)
    requires
        msg.spec_serialize().len() <= 257,
    ensures
        r@ == with_checksum(msg.spec_serialize()),
{
    proof {
        lemma_byte_sum_bound(msg.spec_serialize());
    }
    let mut raw: Vec<u8> = msg.serialize();
    let crc: u16 = checksum16(raw.as_slice());
    push_le_u16(&mut raw, crc);
    raw
}

/// Set the attitude control mode.
#[derive(Clone, Copy, Debug)]
pub struct SetAcsMode {
    /// Command ID
    pub id: u8,
    /// ACS mode to enter
    pub mode: u8,
    /// Mode arguments
    pub qbi_cmd: [i16; 4],
}

impl Default for SetAcsMode {
    fn default() -> (r: SetAcsMode)
        ensures
            r.id == 0,
            r.mode == 0,
            r.qbi_cmd@ == seq![0i16, 0i16, 0i16, 0i16],
    {
        let r = SetAcsMode { id: 0, mode: 0, qbi_cmd: [0, 0, 0, 0] };
        assert(r.qbi_cmd@ =~= seq![0i16, 0i16, 0i16, 0i16]);
        r
    }
}

impl Message for SetAcsMode {
    /// Sync word, ID, mode, the four arguments (little-endian), 26 zero
    /// bytes.
    open spec fn spec_serialize(&self) -> Seq<u8> {
        le_bytes_u16(SYNC) + seq![self.id, self.mode] + le_bytes_u16(self.qbi_cmd[0] as u16)
            + le_bytes_u16(self.qbi_cmd[1] as u16) + le_bytes_u16(self.qbi_cmd[2] as u16)
            + le_bytes_u16(self.qbi_cmd[3] as u16) + zeros(26)
    }

    fn serialize(&self) -> (r: Vec<u8>) {
        let mut vec: Vec<u8> = Vec::new();
        push_le_u16(&mut vec, SYNC);
        vec.push(self.id);
        vec.push(self.mode);
        push_le_u16(&mut vec, self.qbi_cmd[0] as u16);
        push_le_u16(&mut vec, self.qbi_cmd[1] as u16);
        push_le_u16(&mut vec, self.qbi_cmd[2] as u16);
        push_le_u16(&mut vec, self.qbi_cmd[3] as u16);
        push_zeros(&mut vec, 26);
        assert(vec@ =~= self.spec_serialize());
        vec
    }
}

/// Set a sun-pointing attitude control mode. `sun_rot_angle` holds the bits
/// of an f32 angle in degrees.
#[derive(Clone, Copy, Debug)]
pub struct SetAcsModeSun {
    /// Command ID
    pub id: u8,
    /// ACS mode to enter
    pub mode: u8,
    /// Sun angle enable (0 = no update, 1 = update)
    pub sun_angle_enable: i16,
    /// Sun rotation angle, degrees (f32 bits)
    pub sun_rot_angle: u32,
}

impl Default for SetAcsModeSun {
    fn default() -> (r: SetAcsModeSun)
        ensures
            r.id == 0,
            r.mode == 0,
            r.sun_angle_enable == 0,
            r.sun_rot_angle == 0,
    {
        SetAcsModeSun { id: 0, mode: 0, sun_angle_enable: 0, sun_rot_angle: 0 }
    }
}

impl Message for SetAcsModeSun {
    /// Sync word, ID, mode, enable flag and angle (little-endian), 28 zero
    /// bytes.
    open spec fn spec_serialize(&self) -> Seq<u8> {
        le_bytes_u16(SYNC) + seq![self.id, self.mode] + le_bytes_u16(self.sun_angle_enable as u16)
            + le_bytes_u32(self.sun_rot_angle) + zeros(28)
    }

    fn serialize(&self) -> (r: Vec<u8>) {
        let mut vec: Vec<u8> = Vec::new();
        push_le_u16(&mut vec, SYNC);
        vec.push(self.id);
        vec.push(self.mode);
        push_le_u16(&mut vec, self.sun_angle_enable as u16);
        push_le_u32(&mut vec, self.sun_rot_angle);
        push_zeros(&mut vec, 28);
        assert(vec@ =~= self.spec_serialize());
        vec
    }
}

/// Set the ADACS clock.
#[derive(Clone, Copy, Debug)]
pub struct SetGPSTime {
    /// Command ID
    pub id: u8,
    /// GPS time, seconds since Jan 6, 1980 00:00:00
    pub gps_time: u32,
}

impl Default for SetGPSTime {
    fn default() -> (r: SetGPSTime)
        ensures
            r.id == 0x44,
            r.gps_time == 0,
    {
        SetGPSTime { id: 0x44, gps_time: 0 }
    }
}

impl Message for SetGPSTime {
    /// Sync word, ID, time (little-endian), 31 zero bytes.
    open spec fn spec_serialize(&self) -> Seq<u8> {
        le_bytes_u16(SYNC) + seq![self.id] + le_bytes_u32(self.gps_time) + zeros(31)
    }

    fn serialize(&self) -> (r: Vec<u8>) {
        let mut vec: Vec<u8> = Vec::new();
        push_le_u16(&mut vec, SYNC);
        vec.push(self.id);
        push_le_u32(&mut vec, self.gps_time);
        push_zeros(&mut vec, 31);
        assert(vec@ =~= self.spec_serialize());
        vec
    }
}

/// Set the orbital position and velocity at an epoch. Position and
/// velocity hold the bits of f32 values.
#[derive(Clone, Copy, Debug)]
pub struct SetRV {
    /// Command ID
    pub id: u8,
    /// ECI position (X, Y, Z) (f32 bits)
    pub eci_pos: [u32; 3],
    /// ECI velocity (X, Y, Z) (f32 bits)
    pub eci_vel: [u32; 3],
    /// GPS time at epoch
    pub time_epoch: u32,
}

impl Default for SetRV {
    fn default() -> (r: SetRV)
        ensures
            r.id == 0x41,
            r.eci_pos == [0u32, 0u32, 0u32],
            r.eci_vel == [0u32, 0u32, 0u32],
            r.time_epoch == 0,
    {
        SetRV { id: 0x41, eci_pos: [0, 0, 0], eci_vel: [0, 0, 0], time_epoch: 0 }
    }
}

impl Message for SetRV {
    /// Sync word, ID, position, velocity and epoch (little-endian), 7 zero
    /// bytes.
    open spec fn spec_serialize(&self) -> Seq<u8> {
        le_bytes_u16(SYNC) + seq![self.id] + le_bytes_u32(self.eci_pos[0]) + le_bytes_u32(
            self.eci_pos[1],
        ) + le_bytes_u32(self.eci_pos[2]) + le_bytes_u32(self.eci_vel[0]) + le_bytes_u32(
            self.eci_vel[1],
        ) + le_bytes_u32(self.eci_vel[2]) + le_bytes_u32(self.time_epoch) + zeros(7)
    }

    fn serialize(&self) -> (r: Vec<u8>) {
        let mut vec: Vec<u8> = Vec::new();
        push_le_u16(&mut vec, SYNC);
        vec.push(self.id);
        push_le_u32(&mut vec, self.eci_pos[0]);
        push_le_u32(&mut vec, self.eci_pos[1]);
        push_le_u32(&mut vec, self.eci_pos[2]);
        push_le_u32(&mut vec, self.eci_vel[0]);
        push_le_u32(&mut vec, self.eci_vel[1]);
        push_le_u32(&mut vec, self.eci_vel[2]);
        push_le_u32(&mut vec, self.time_epoch);
        push_zeros(&mut vec, 7);
        assert(vec@ =~= self.spec_serialize());
        vec
    }
}

/// The fixed bytes of a reset command with the given ID: sync, ID, zeros.
pub open spec fn reset_bytes(id: u8) -> Seq<u8> {
    seq![0x90u8, 0xEBu8, id] + zeros(35)
}

fn reset_array(id: u8) -> (r: [u8; 38])
    ensures
        r@ == reset_bytes(id),
{
    let mut array: [u8; 38] = [0; 38];
    array[0] = 0x90;
    array[1] = 0xEB;
    array[2] = id;
    assert(array@ =~= reset_bytes(id));
    array
}

/// First command of a reset: the request.
#[derive(Clone, Copy, Debug)]
pub struct RequestReset(pub [u8; 38]);

impl Default for RequestReset {
    fn default() -> (r: RequestReset)
        ensures
            r.0@ == reset_bytes(0x5A),
    {
        RequestReset(reset_array(0x5A))
    }
}

impl Message for RequestReset {
    open spec fn spec_serialize(&self) -> Seq<u8> {
        self.0@
    }

    fn serialize(&self) -> (r: Vec<u8>) {
        let mut vec: Vec<u8> = Vec::new();
        let mut i: usize = 0;
        while i < 38
            invariant
                i <= 38,
                vec@ == self.0@.subrange(0, i as int),
            decreases 38 - i,
        {
            vec.push(self.0[i]);
            i = i + 1;
        }
        assert(vec@ =~= self.0@);
        vec
    }
}

/// Second command of a reset: the confirmation.
#[derive(Clone, Copy, Debug)]
pub struct ConfirmReset([u8; 38]);

impl ConfirmReset {
    /// The bytes of the command.
    pub closed spec fn spec_bytes(&self) -> Seq<u8> {
        self.0@
    }
}

impl Default for ConfirmReset {
    fn default() -> (r: ConfirmReset)
        ensures
            r.spec_bytes() == reset_bytes(0xF1),
    {
        ConfirmReset(reset_array(0xF1))
    }
}

impl Message for ConfirmReset {
    open spec fn spec_serialize(&self) -> Seq<u8> {
        self.spec_bytes()
    }

    fn serialize(&self) -> (r: Vec<u8>) {
        let mut vec: Vec<u8> = Vec::new();
        let mut i: usize = 0;
        while i < 38
            invariant
                i <= 38,
                vec@ == self.0@.subrange(0, i as int),
            decreases 38 - i,
        {
            vec.push(self.0[i]);
            i = i + 1;
        }
        assert(vec@ =~= self.0@);
        vec
    }
}

} // verus!
