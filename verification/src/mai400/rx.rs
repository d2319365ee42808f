//! Telemetry messages received from the MAI-400.

use vstd::prelude::*;
use crate::flags::{empty_list, flag_list, lemma_texts_push, set_flag_names, texts};
use crate::bytes::{byte_sum, checksum16, le_u16_at, le_u32_at, read_le_u16, read_le_u32};
use crate::checksum::{crc16_arc, crc16_arc_of};
use crate::mai400::AUX_SYNC;

verus! {

/// Standard telemetry message, sent by the device every 250 ms.
///
/// Single-precision floating-point fields hold the raw IEEE-754 bit pattern
/// of the value, as it was on the wire.
#[derive(Clone, Copy, Debug, Default, PartialEq)]
pub struct StandardTelemetry {
    /// Rotating variable indicator
    pub tlm_counter: u8,
    /// UTC Time in Seconds
    pub gps_time: u32,
    /// 4 Hz Subsecond counter
    pub time_subsec: u8,
    /// Valid Command Counter
    pub cmd_valid_cntr: u16,
    /// Invalid Command Counter
    pub cmd_invalid_cntr: u16,
    /// Invalid Command CRC Counter
    pub cmd_invalid_chksum_cntr: u16,
    /// Last valid CCT command received
    pub last_command: u8,
    /// Commanded ACS Mode
    pub acs_mode: u8,
    /// Raw sun sensor outputs
    pub css: [u16; 6],
    /// Whether the device is eclipsed or not
    pub eclipse_flag: u8,
    /// Unit Sun Vector in Body Frame
    pub sun_vec_b: [i16; 3],
    /// Magnetometer Reading (inc. bias and gain)
    pub i_b_field_meas: [i16; 3],
    /// Rate of Change of Magnetic field Vector in Body Frame (f32 bits)
    pub bd: [u32; 3],
    /// RWS Commanded Wheel Speed, lsb: 1 RPM
    pub rws_speed_cmd: [i16; 3],
    /// RWS Wheel Speeds, lsb: 1 RPM
    pub rws_speed_tach: [i16; 3],
    /// Commanded Wheel Torque computed by ADACS, mNm (f32 bits)
    pub rwa_torque_cmd: [u32; 3],
    /// RWS Torque Command to wheel
    pub gc_rwa_torque_cmd: [i8; 3],
    /// Torque Coil Command computed by ADACS, Am^2 (f32 bits)
    pub torque_coil_cmd: [u32; 3],
    /// Torque Coil Command (lsb)
    pub gc_torque_coil_cmd: [i8; 3],
    /// Commanded orbit-to-body quaternion
    pub qbo_cmd: [i16; 4],
    /// Current Estimated Orbit-to-Body Quaternion
    pub qbo_hat: [i16; 4],
    /// Angle to Go in radians (f32 bits)
    pub angle_to_go: u32,
    /// Error between command and estimate Qbo
    pub q_error: [i16; 4],
    /// Body rate in body frame, rad/sec (f32 bits)
    pub omega_b: [u32; 3],
    /// Rotating variable A
    pub rotating_variable_a: u32,
    /// Rotating variable B
    pub rotating_variable_b: u32,
    /// Rotating variable C
    pub rotating_variable_c: u32,
    /// Nadir vectors in Body
    pub nb: [i16; 3],
    /// Nadir vectors in ECI frame
    pub neci: [i16; 3],
}

/// Length of a standard telemetry message without its checksum.
pub const STD_TELEM_LEN: usize = 159;

/// The standard telemetry message that the (checksum-free) bytes `s` hold:
/// a two-byte sync word, then the fields in order, little-endian.
pub open spec fn standard_telemetry_of(s: Seq<u8>) -> StandardTelemetry {
    StandardTelemetry {
        tlm_counter: s[2],
        gps_time: le_u32_at(s, 3),
        time_subsec: s[7],
        cmd_valid_cntr: le_u16_at(s, 8),
        cmd_invalid_cntr: le_u16_at(s, 10),
        cmd_invalid_chksum_cntr: le_u16_at(s, 12),
        last_command: s[14],
        acs_mode: s[15],
        css: [le_u16_at(s, 16), le_u16_at(s, 18), le_u16_at(s, 20), le_u16_at(s, 22), le_u16_at(s, 24), le_u16_at(s, 26)],
        eclipse_flag: s[28],
        sun_vec_b: [le_u16_at(s, 29) as i16, le_u16_at(s, 31) as i16, le_u16_at(s, 33) as i16],
        i_b_field_meas: [le_u16_at(s, 35) as i16, le_u16_at(s, 37) as i16, le_u16_at(s, 39) as i16],
        bd: [le_u32_at(s, 41), le_u32_at(s, 45), le_u32_at(s, 49)],
        rws_speed_cmd: [le_u16_at(s, 53) as i16, le_u16_at(s, 55) as i16, le_u16_at(s, 57) as i16],
        rws_speed_tach: [le_u16_at(s, 59) as i16, le_u16_at(s, 61) as i16, le_u16_at(s, 63) as i16],
        rwa_torque_cmd: [le_u32_at(s, 65), le_u32_at(s, 69), le_u32_at(s, 73)],
        gc_rwa_torque_cmd: [s[77] as i8, s[78] as i8, s[79] as i8],
        torque_coil_cmd: [le_u32_at(s, 80), le_u32_at(s, 84), le_u32_at(s, 88)],
        gc_torque_coil_cmd: [s[92] as i8, s[93] as i8, s[94] as i8],
        qbo_cmd: [le_u16_at(s, 95) as i16, le_u16_at(s, 97) as i16, le_u16_at(s, 99) as i16, le_u16_at(s, 101) as i16],
        qbo_hat: [le_u16_at(s, 103) as i16, le_u16_at(s, 105) as i16, le_u16_at(s, 107) as i16, le_u16_at(s, 109) as i16],
        angle_to_go: le_u32_at(s, 111),
        q_error: [le_u16_at(s, 115) as i16, le_u16_at(s, 117) as i16, le_u16_at(s, 119) as i16, le_u16_at(s, 121) as i16],
        omega_b: [le_u32_at(s, 123), le_u32_at(s, 127), le_u32_at(s, 131)],
        rotating_variable_a: le_u32_at(s, 135),
        rotating_variable_b: le_u32_at(s, 139),
        rotating_variable_c: le_u32_at(s, 143),
        nb: [le_u16_at(s, 147) as i16, le_u16_at(s, 149) as i16, le_u16_at(s, 151) as i16],
        neci: [le_u16_at(s, 153) as i16, le_u16_at(s, 155) as i16, le_u16_at(s, 157) as i16],
    }
}

/// Where the fields of a standard telemetry message lie in its bytes `s`
/// (checksum removed): the counter at 2, the GPS time at 3, the sub-second
/// at 7, the valid, invalid and bad-checksum command counters at 8, 10 and
/// 12, and so on; each array holds consecutive little-endian words in
/// element order, and the rotating variables are the words at 135, 139
/// and 143.
pub proof fn lemma_standard_telemetry_layout(s: Seq<u8>)
    ensures
        ({
            let t = standard_telemetry_of(s);
            &&& t.tlm_counter == s[2]
            &&& t.gps_time == le_u32_at(s, 3)
            &&& t.time_subsec == s[7]
            &&& t.cmd_valid_cntr == le_u16_at(s, 8)
            &&& t.cmd_invalid_cntr == le_u16_at(s, 10)
            &&& t.cmd_invalid_chksum_cntr == le_u16_at(s, 12)
            &&& t.last_command == s[14]
            &&& t.acs_mode == s[15]
            &&& t.eclipse_flag == s[28]
            &&& t.angle_to_go == le_u32_at(s, 111)
            &&& t.rotating_variable_a == le_u32_at(s, 135)
            &&& t.rotating_variable_b == le_u32_at(s, 139)
            &&& t.rotating_variable_c == le_u32_at(s, 143)
        }),
        ({
            let t = standard_telemetry_of(s);
            forall|i: int| 0 <= i < 6 ==> #[trigger] t.css[i] == le_u16_at(s, 16 + 2 * i)
        }),
        ({
            let t = standard_telemetry_of(s);
            forall|i: int| 0 <= i < 3 ==> #[trigger] t.sun_vec_b[i] == le_u16_at(s, 29 + 2 * i) as i16
        }),
        ({
            let t = standard_telemetry_of(s);
            forall|i: int| 0 <= i < 3 ==> #[trigger] t.i_b_field_meas[i] == le_u16_at(s, 35 + 2 * i) as i16
        }),
        ({
            let t = standard_telemetry_of(s);
            forall|i: int| 0 <= i < 3 ==> #[trigger] t.bd[i] == le_u32_at(s, 41 + 4 * i)
        }),
        ({
            let t = standard_telemetry_of(s);
            forall|i: int| 0 <= i < 3 ==> #[trigger] t.rws_speed_cmd[i] == le_u16_at(s, 53 + 2 * i) as i16
        }),
        ({
            let t = standard_telemetry_of(s);
            forall|i: int| 0 <= i < 3 ==> #[trigger] t.rws_speed_tach[i] == le_u16_at(s, 59 + 2 * i) as i16
        }),
        ({
            let t = standard_telemetry_of(s);
            forall|i: int| 0 <= i < 3 ==> #[trigger] t.rwa_torque_cmd[i] == le_u32_at(s, 65 + 4 * i)
        }),
        ({
            let t = standard_telemetry_of(s);
            forall|i: int| 0 <= i < 3 ==> #[trigger] t.gc_rwa_torque_cmd[i] == s[77 + i] as i8
        }),
        ({
            let t = standard_telemetry_of(s);
            forall|i: int| 0 <= i < 3 ==> #[trigger] t.torque_coil_cmd[i] == le_u32_at(s, 80 + 4 * i)
        }),
        ({
            let t = standard_telemetry_of(s);
            forall|i: int| 0 <= i < 3 ==> #[trigger] t.gc_torque_coil_cmd[i] == s[92 + i] as i8
        }),
        ({
            let t = standard_telemetry_of(s);
            forall|i: int| 0 <= i < 4 ==> #[trigger] t.qbo_cmd[i] == le_u16_at(s, 95 + 2 * i) as i16
        }),
        ({
            let t = standard_telemetry_of(s);
            forall|i: int| 0 <= i < 4 ==> #[trigger] t.qbo_hat[i] == le_u16_at(s, 103 + 2 * i) as i16
        }),
        ({
            let t = standard_telemetry_of(s);
            forall|i: int| 0 <= i < 4 ==> #[trigger] t.q_error[i] == le_u16_at(s, 115 + 2 * i) as i16
        }),
        ({
            let t = standard_telemetry_of(s);
            forall|i: int| 0 <= i < 3 ==> #[trigger] t.omega_b[i] == le_u32_at(s, 123 + 4 * i)
        }),
        ({
            let t = standard_telemetry_of(s);
            forall|i: int| 0 <= i < 3 ==> #[trigger] t.nb[i] == le_u16_at(s, 147 + 2 * i) as i16
        }),
        ({
            let t = standard_telemetry_of(s);
            forall|i: int| 0 <= i < 3 ==> #[trigger] t.neci[i] == le_u16_at(s, 153 + 2 * i) as i16
        }),
{
    let t = standard_telemetry_of(s);
    assert forall|i: int| 0 <= i < 6 implies #[trigger] t.css[i] == le_u16_at(s, 16 + 2 * i) by {
        if i == 1 {} else if i == 2 {} else if i == 3 {} else if i == 4 {} else if i == 5 {}
    }
    assert forall|i: int| 0 <= i < 3 implies #[trigger] t.sun_vec_b[i] == le_u16_at(s, 29 + 2 * i) as i16 by {
        if i == 1 {} else if i == 2 {}
    }
    assert forall|i: int| 0 <= i < 3 implies #[trigger] t.i_b_field_meas[i] == le_u16_at(s, 35 + 2 * i) as i16 by {
        if i == 1 {} else if i == 2 {}
    }
    assert forall|i: int| 0 <= i < 3 implies #[trigger] t.bd[i] == le_u32_at(s, 41 + 4 * i) by {
        if i == 1 {} else if i == 2 {}
    }
    assert forall|i: int| 0 <= i < 3 implies #[trigger] t.rws_speed_cmd[i] == le_u16_at(s, 53 + 2 * i) as i16 by {
        if i == 1 {} else if i == 2 {}
    }
    assert forall|i: int| 0 <= i < 3 implies #[trigger] t.rws_speed_tach[i] == le_u16_at(s, 59 + 2 * i) as i16 by {
        if i == 1 {} else if i == 2 {}
    }
    assert forall|i: int| 0 <= i < 3 implies #[trigger] t.rwa_torque_cmd[i] == le_u32_at(s, 65 + 4 * i) by {
        if i == 1 {} else if i == 2 {}
    }
    assert forall|i: int| 0 <= i < 3 implies #[trigger] t.gc_rwa_torque_cmd[i] == s[77 + i] as i8 by {
        if i == 1 {} else if i == 2 {}
    }
    assert forall|i: int| 0 <= i < 3 implies #[trigger] t.torque_coil_cmd[i] == le_u32_at(s, 80 + 4 * i) by {
        if i == 1 {} else if i == 2 {}
    }
    assert forall|i: int| 0 <= i < 3 implies #[trigger] t.gc_torque_coil_cmd[i] == s[92 + i] as i8 by {
        if i == 1 {} else if i == 2 {}
    }
    assert forall|i: int| 0 <= i < 4 implies #[trigger] t.qbo_cmd[i] == le_u16_at(s, 95 + 2 * i) as i16 by {
        if i == 1 {} else if i == 2 {} else if i == 3 {}
    }
    assert forall|i: int| 0 <= i < 4 implies #[trigger] t.qbo_hat[i] == le_u16_at(s, 103 + 2 * i) as i16 by {
        if i == 1 {} else if i == 2 {} else if i == 3 {}
    }
    assert forall|i: int| 0 <= i < 4 implies #[trigger] t.q_error[i] == le_u16_at(s, 115 + 2 * i) as i16 by {
        if i == 1 {} else if i == 2 {} else if i == 3 {}
    }
    assert forall|i: int| 0 <= i < 3 implies #[trigger] t.omega_b[i] == le_u32_at(s, 123 + 4 * i) by {
        if i == 1 {} else if i == 2 {}
    }
    assert forall|i: int| 0 <= i < 3 implies #[trigger] t.nb[i] == le_u16_at(s, 147 + 2 * i) as i16 by {
        if i == 1 {} else if i == 2 {}
    }
    assert forall|i: int| 0 <= i < 3 implies #[trigger] t.neci[i] == le_u16_at(s, 153 + 2 * i) as i16 by {
        if i == 1 {} else if i == 2 {}
    }
}

/// The two bytes before the end of `msg` (the checksum position).
pub open spec fn trailer_u16(msg: Seq<u8>) -> u16 {
    le_u16_at(msg, msg.len() - 2)
}

/// `msg` without its two trailing checksum bytes.
pub open spec fn without_trailer(msg: Seq<u8>) -> Seq<u8> {
    msg.subrange(0, msg.len() - 2)
}

impl StandardTelemetry {
    /// Reads a standard telemetry message whose last two bytes are the
    /// 16-bit sum of the others; `None` when the sum does not match or the
    /// message is too short.
    pub fn new(msg: Vec<u8>) -> (r: Option<StandardTelemetry>)
        requires
            msg@.len() >= 2,
            byte_sum(without_trailer(msg@)) <= u16::MAX,
        ensures
            r is Some <==> (byte_sum(without_trailer(msg@)) == trailer_u16(msg@) && without_trailer(
                msg@,
            ).len() >= STD_TELEM_LEN),
            r matches Some(t) ==> t == standard_telemetry_of(without_trailer(msg@)),
    {
        let len: usize = msg.len() - 2;
        let crc: u16 = read_le_u16(msg.as_slice(), len);
        let calc: u16 = checksum16(vstd::slice::slice_subrange(msg.as_slice(), 0, len));
        if calc != crc {
            return None;
        }
        if len < STD_TELEM_LEN {
            return None;
        }
        let b: &[u8] = vstd::slice::slice_subrange(msg.as_slice(), 0, len);
        Some(StandardTelemetry {
            tlm_counter: b[2],
            gps_time: read_le_u32(b, 3),
            time_subsec: b[7],
            cmd_valid_cntr: read_le_u16(b, 8),
            cmd_invalid_cntr: read_le_u16(b, 10),
            cmd_invalid_chksum_cntr: read_le_u16(b, 12),
            last_command: b[14],
            acs_mode: b[15],
            css: [read_le_u16(b, 16), read_le_u16(b, 18), read_le_u16(b, 20), read_le_u16(b, 22), read_le_u16(b, 24), read_le_u16(b, 26)],
            eclipse_flag: b[28],
            sun_vec_b: [read_le_u16(b, 29) as i16, read_le_u16(b, 31) as i16, read_le_u16(b, 33) as i16],
            i_b_field_meas: [read_le_u16(b, 35) as i16, read_le_u16(b, 37) as i16, read_le_u16(b, 39) as i16],
            bd: [read_le_u32(b, 41), read_le_u32(b, 45), read_le_u32(b, 49)],
            rws_speed_cmd: [read_le_u16(b, 53) as i16, read_le_u16(b, 55) as i16, read_le_u16(b, 57) as i16],
            rws_speed_tach: [read_le_u16(b, 59) as i16, read_le_u16(b, 61) as i16, read_le_u16(b, 63) as i16],
            rwa_torque_cmd: [read_le_u32(b, 65), read_le_u32(b, 69), read_le_u32(b, 73)],
            gc_rwa_torque_cmd: [b[77] as i8, b[78] as i8, b[79] as i8],
            torque_coil_cmd: [read_le_u32(b, 80), read_le_u32(b, 84), read_le_u32(b, 88)],
            gc_torque_coil_cmd: [b[92] as i8, b[93] as i8, b[94] as i8],
            qbo_cmd: [read_le_u16(b, 95) as i16, read_le_u16(b, 97) as i16, read_le_u16(b, 99) as i16, read_le_u16(b, 101) as i16],
            qbo_hat: [read_le_u16(b, 103) as i16, read_le_u16(b, 105) as i16, read_le_u16(b, 107) as i16, read_le_u16(b, 109) as i16],
            angle_to_go: read_le_u32(b, 111),
            q_error: [read_le_u16(b, 115) as i16, read_le_u16(b, 117) as i16, read_le_u16(b, 119) as i16, read_le_u16(b, 121) as i16],
            omega_b: [read_le_u32(b, 123), read_le_u32(b, 127), read_le_u32(b, 131)],
            rotating_variable_a: read_le_u32(b, 135),
            rotating_variable_b: read_le_u32(b, 139),
            rotating_variable_c: read_le_u32(b, 143),
            nb: [read_le_u16(b, 147) as i16, read_le_u16(b, 149) as i16, read_le_u16(b, 151) as i16],
            neci: [read_le_u16(b, 153) as i16, read_le_u16(b, 155) as i16, read_le_u16(b, 157) as i16],
        })
    }
}

/// The flags of [`ThermopileFlags`] in declaration order: each one's bit and name.
pub open spec fn thermopile_flag(i: int) -> (u32, Seq<char>) {
    if i == 0 {
        (0x1u32, "DIP_ANGLE_LIMIT"@)
    } else if i == 1 {
        (0x2u32, "SUN_IN_EPHEMERIS"@)
    } else if i == 2 {
        (0x4u32, "THERMOPILE_SAT"@)
    } else if i == 3 {
        (0x8u32, "NO_COMM"@)
    } else if i == 4 {
        (0x10u32, "BAD_EARTH_REF"@)
    } else {
        (0x20u32, "AUX_WIDE_FOV"@)
    }
}

/// Bit and name of flag `i` of [`ThermopileFlags`].
fn thermopile_flag_entry(i: usize) -> (r: (u32, &'static str))
    requires
        i < 6,
    ensures
        r.0 == thermopile_flag(i as int).0,
        r.1@ == thermopile_flag(i as int).1,
{
    match i {
        0 => (0x1, "DIP_ANGLE_LIMIT"),
        1 => (0x2, "SUN_IN_EPHEMERIS"),
        2 => (0x4, "THERMOPILE_SAT"),
        3 => (0x8, "NO_COMM"),
        4 => (0x10, "BAD_EARTH_REF"),
        _ => (0x20, "AUX_WIDE_FOV"),
    }
}

/// The flags of [`ThermopileFlags`] as a table.
pub open spec fn thermopile_flags() -> spec_fn(int) -> (u32, Seq<char>) {
    |i: int| thermopile_flag(i)
}

/// Mask of the defined thermopile flags.
pub const THERMOPILE_ALL: u8 = 0x3F;

/// Thermopile error flags.
#[derive(Clone, Copy, Debug, Default, PartialEq, Eq)]
pub struct ThermopileFlags {
    /// The flag bits
    pub bits: u8,
}

impl ThermopileFlags {
    /// Only defined flags are set.
    pub open spec fn wf(&self) -> bool {
        self.bits & THERMOPILE_ALL == self.bits
    }

    /// The flags of `bits`, undefined bits dropped.
    pub open spec fn truncated(bits: u8) -> ThermopileFlags {
        ThermopileFlags { bits: bits & THERMOPILE_ALL }
    }

    /// The flags of `bits`, undefined bits dropped.
    pub fn from_bits_truncate(bits: u8) -> (r: ThermopileFlags)
        ensures
            r == Self::truncated(bits),
            r.wf(),
    {
        proof {
            assert((bits & THERMOPILE_ALL) & THERMOPILE_ALL == bits & THERMOPILE_ALL) by (bit_vector);
        }
        ThermopileFlags { bits: bits & THERMOPILE_ALL }
    }

    /// The flag bits.
    pub fn bits(&self) -> (r: u8)
        ensures
            r == self.bits,
    {
        self.bits
    }
    /// Convert the flags into the names of all flags present, in declaration
    /// order, or `(empty)` when there is none.
    pub fn to_vec(self) -> (r: Vec<String>)
        requires
            self.wf(),
        ensures
            texts(r@) == flag_list(self.bits as u32, thermopile_flags(), 6),
    {
        let bits: u32 = self.bits as u32;
        let mut v: Vec<String> = Vec::new();
        let mut i: usize = 0;
        while i < 6
            invariant
                i <= 6,
                bits == self.bits as u32,
                texts(v@) == set_flag_names(bits, thermopile_flags(), i as int),
            decreases 6 - i,
        {
            let (mask, name) = thermopile_flag_entry(i);
            if bits & mask == mask {
                let s: String = name.to_owned();
                proof {
                    lemma_texts_push(v@, s);
                }
                v.push(s);
            }
            i = i + 1;
        }
        if v.len() == 0 {
            return empty_list();
        }
        v
    }
}

/// Raw IMU readings.
#[derive(Clone, Copy, Debug, Default, PartialEq)]
pub struct RawIMU {
    /// Accelerometer (X, Y, Z)  (3.9 mg/lsb)
    pub accel: [i16; 3],
    /// Gyroscope (X, Y, Z) (8.75 mdps/lsb)
    pub gyro: [i16; 3],
    /// Gyroscope temperature (-1C/lsb)
    pub gyro_temp: u8,
}

/// Whether an auxiliary message can be given to the constructors: it holds
/// its sync word, and, when that is the auxiliary one, a checksum too.
pub open spec fn aux_message_ok(msg: Seq<u8>) -> bool {
    &&& msg.len() >= 2
    &&& le_u16_at(msg, 0) == AUX_SYNC ==> msg.len() >= 4
}

/// The payload of an auxiliary message whose sync word and CRC-16/ARC are
/// right: the bytes between the sync word and the checksum.
pub open spec fn aux_payload(msg: Seq<u8>) -> Option<Seq<u8>> {
    if le_u16_at(msg, 0) != AUX_SYNC {
        None
    } else {
        let data = msg.subrange(2, msg.len() as int);
        if crc16_arc_of(without_trailer(data)) != trailer_u16(data) {
            None
        } else {
            Some(without_trailer(data))
        }
    }
}

/// Checks the sync word and CRC of an auxiliary message and gives its payload.
fn checked_aux_payload(msg: &[u8]) -> (r: Option<Vec<u8>>)
    requires
        aux_message_ok(msg@),
    ensures
        r matches Some(p) ==> aux_payload(msg@) == Some(p@),
        r is None ==> aux_payload(msg@) is None,
{
    let check: u16 = read_le_u16(msg, 0);
    if check != AUX_SYNC {
        return None;
    }
    let n: usize = msg.len();
    let crc: u16 = read_le_u16(msg, n - 2);
    let data: &[u8] = vstd::slice::slice_subrange(msg, 2, n - 2);
    let calc: u16 = crc16_arc(data);
    proof {
        let d = msg@.subrange(2, n as int);
        assert(without_trailer(d) =~= data@);
        assert(trailer_u16(d) == le_u16_at(msg@, n - 2));
    }
    if calc != crc {
        return None;
    }
    Some(vstd::slice::slice_to_vec(data))
}

/// Length of a raw IMU payload.
pub const RAW_IMU_LEN: usize = 17;

/// The raw IMU readings that a payload holds (after two reserved words).
pub open spec fn raw_imu_of(d: Seq<u8>) -> RawIMU {
    RawIMU {
        accel: [le_u16_at(d, 4) as i16, le_u16_at(d, 6) as i16, le_u16_at(d, 8) as i16],
        gyro: [le_u16_at(d, 10) as i16, le_u16_at(d, 12) as i16, le_u16_at(d, 14) as i16],
        gyro_temp: d[16],
    }
}

/// Where the readings of a raw IMU payload `d` lie: after two reserved
/// words, the accelerometer (X, Y, Z) and then the gyroscope (X, Y, Z) as
/// consecutive little-endian signed 16-bit words, then the gyroscope
/// temperature byte at 16.
pub proof fn lemma_raw_imu_layout(d: Seq<u8>)
    ensures
        raw_imu_of(d).gyro_temp == d[16],
        ({
            let t = raw_imu_of(d);
            forall|i: int| 0 <= i < 3 ==> #[trigger] t.accel[i] == le_u16_at(d, 4 + 2 * i) as i16
        }),
        ({
            let t = raw_imu_of(d);
            forall|i: int| 0 <= i < 3 ==> #[trigger] t.gyro[i] == le_u16_at(d, 10 + 2 * i) as i16
        }),
{
    let t = raw_imu_of(d);
    assert forall|i: int| 0 <= i < 3 implies #[trigger] t.accel[i] == le_u16_at(d, 4 + 2 * i) as i16 by {
        if i == 1 {} else if i == 2 {}
    }
    assert forall|i: int| 0 <= i < 3 implies #[trigger] t.gyro[i] == le_u16_at(d, 10 + 2 * i) as i16 by {
        if i == 1 {} else if i == 2 {}
    }
}

impl RawIMU {
    /// Reads a raw IMU message: auxiliary sync word, payload, CRC-16/ARC of
    /// the payload. `None` when the sync word or CRC is wrong or the payload
    /// is too short.
    pub fn new(msg: Vec<u8>) -> (r: Option<RawIMU>)
        requires
            aux_message_ok(msg@),
        ensures
            r is Some <==> (aux_payload(msg@) matches Some(d) && d.len() >= RAW_IMU_LEN),
            r matches Some(imu) ==> imu == raw_imu_of(aux_payload(msg@).unwrap()),
    {
        let data: Vec<u8> = match checked_aux_payload(msg.as_slice()) {
            Some(d) => d,
            None => {
                return None;
            },
        };
        if data.len() < RAW_IMU_LEN {
            return None;
        }
        let d: &[u8] = data.as_slice();
        Some(
            RawIMU {
                accel: [read_le_u16(d, 4) as i16, read_le_u16(d, 6) as i16, read_le_u16(d, 8) as i16],
                gyro: [
                    read_le_u16(d, 10) as i16,
                    read_le_u16(d, 12) as i16,
                    read_le_u16(d, 14) as i16,
                ],
                gyro_temp: d[16],
            },
        )
    }
}

/// IREHS (infrared earth horizon sensor) telemetry.
#[derive(Clone, Copy, Debug, Default, PartialEq)]
pub struct IREHSTelemetry {
    /// IREHS A thermopile sensors: earth limb, earth reference, space
    /// reference, wide FOV (0.8059 mV per lsb)
    pub thermopiles_a: [u16; 4],
    /// IREHS B thermopile sensors
    pub thermopiles_b: [u16; 4],
    /// Thermistor temperatures for A
    pub temp_a: [u16; 4],
    /// Thermistor temperatures for B
    pub temp_b: [u16; 4],
    /// Calculated dip angle of Earth limb for A in degrees
    pub dip_angle_a: i32,
    /// Calculated dip angle of Earth limb for B in degrees
    pub dip_angle_b: i32,
    /// Degradation codes for thermopiles, A then B
    pub solution_degraded: [ThermopileFlags; 8],
}

/// Length of an IREHS payload.
pub const IREHS_LEN: usize = 52;

/// The IREHS telemetry that a payload holds (after two reserved words).
pub open spec fn irehs_of(d: Seq<u8>) -> IREHSTelemetry {
    IREHSTelemetry {
        thermopiles_a: [le_u16_at(d, 4), le_u16_at(d, 6), le_u16_at(d, 8), le_u16_at(d, 10)],
        thermopiles_b: [le_u16_at(d, 12), le_u16_at(d, 14), le_u16_at(d, 16), le_u16_at(d, 18)],
        temp_a: [le_u16_at(d, 20), le_u16_at(d, 22), le_u16_at(d, 24), le_u16_at(d, 26)],
        temp_b: [le_u16_at(d, 28), le_u16_at(d, 30), le_u16_at(d, 32), le_u16_at(d, 34)],
        dip_angle_a: le_u32_at(d, 36) as i32,
        dip_angle_b: le_u32_at(d, 40) as i32,
        solution_degraded: [
            ThermopileFlags::truncated(d[44]),
            ThermopileFlags::truncated(d[45]),
            ThermopileFlags::truncated(d[46]),
            ThermopileFlags::truncated(d[47]),
            ThermopileFlags::truncated(d[48]),
            ThermopileFlags::truncated(d[49]),
            ThermopileFlags::truncated(d[50]),
            ThermopileFlags::truncated(d[51]),
        ],
    }
}

/// Where the readings of an IREHS payload `d` lie: after two reserved
/// words, the four thermopile words of sensor A, then of B, the four
/// thermistor words of A, then of B (consecutive little-endian 16-bit
/// words), the dip angle of A at 36 and of B at 40 (little-endian signed
/// 32-bit), and one degradation byte per thermopile from 44.
pub proof fn lemma_irehs_layout(d: Seq<u8>)
    ensures
        irehs_of(d).dip_angle_a == le_u32_at(d, 36) as i32,
        irehs_of(d).dip_angle_b == le_u32_at(d, 40) as i32,
        ({
            let t = irehs_of(d);
            forall|i: int| 0 <= i < 4 ==> #[trigger] t.thermopiles_a[i] == le_u16_at(d, 4 + 2 * i)
        }),
        ({
            let t = irehs_of(d);
            forall|i: int| 0 <= i < 4 ==> #[trigger] t.thermopiles_b[i] == le_u16_at(d, 12 + 2 * i)
        }),
        ({
            let t = irehs_of(d);
            forall|i: int| 0 <= i < 4 ==> #[trigger] t.temp_a[i] == le_u16_at(d, 20 + 2 * i)
        }),
        ({
            let t = irehs_of(d);
            forall|i: int| 0 <= i < 4 ==> #[trigger] t.temp_b[i] == le_u16_at(d, 28 + 2 * i)
        }),
        ({
            let t = irehs_of(d);
            forall|i: int| 0 <= i < 8 ==> #[trigger] t.solution_degraded[i] == ThermopileFlags::truncated(d[44 + i])
        }),
{
    let t = irehs_of(d);
    assert forall|i: int| 0 <= i < 4 implies #[trigger] t.thermopiles_a[i] == le_u16_at(d, 4 + 2 * i) by {
        if i == 1 {} else if i == 2 {} else if i == 3 {}
    }
    assert forall|i: int| 0 <= i < 4 implies #[trigger] t.thermopiles_b[i] == le_u16_at(d, 12 + 2 * i) by {
        if i == 1 {} else if i == 2 {} else if i == 3 {}
    }
    assert forall|i: int| 0 <= i < 4 implies #[trigger] t.temp_a[i] == le_u16_at(d, 20 + 2 * i) by {
        if i == 1 {} else if i == 2 {} else if i == 3 {}
    }
    assert forall|i: int| 0 <= i < 4 implies #[trigger] t.temp_b[i] == le_u16_at(d, 28 + 2 * i) by {
        if i == 1 {} else if i == 2 {} else if i == 3 {}
    }
    assert forall|i: int| 0 <= i < 8 implies #[trigger] t.solution_degraded[i] == ThermopileFlags::truncated(d[44 + i]) by {
        if i == 1 {} else if i == 2 {} else if i == 3 {} else if i == 4 {} else if i == 5 {} else if i == 6 {} else if i == 7 {}
    }
}

impl IREHSTelemetry {
    /// Reads an IREHS telemetry message: auxiliary sync word, payload,
    /// CRC-16/ARC of the payload. `None` when the sync word or CRC is wrong
    /// or the payload is too short.
    pub fn new(msg: Vec<u8>) -> (r: Option<IREHSTelemetry>)
        requires
            aux_message_ok(msg@),
        ensures
            r is Some <==> (aux_payload(msg@) matches Some(d) && d.len() >= IREHS_LEN),
            r matches Some(t) ==> t == irehs_of(aux_payload(msg@).unwrap()),
    {
        let data: Vec<u8> = match checked_aux_payload(msg.as_slice()) {
            Some(d) => d,
            None => {
                return None;
            },
        };
        if data.len() < IREHS_LEN {
            return None;
        }
        let d: &[u8] = data.as_slice();
        Some(
            IREHSTelemetry {
                thermopiles_a: [read_le_u16(d, 4), read_le_u16(d, 6), read_le_u16(d, 8), read_le_u16(d, 10)],
                thermopiles_b: [read_le_u16(d, 12), read_le_u16(d, 14), read_le_u16(d, 16), read_le_u16(d, 18)],
                temp_a: [read_le_u16(d, 20), read_le_u16(d, 22), read_le_u16(d, 24), read_le_u16(d, 26)],
                temp_b: [read_le_u16(d, 28), read_le_u16(d, 30), read_le_u16(d, 32), read_le_u16(d, 34)],
                dip_angle_a: read_le_u32(d, 36) as i32,
                dip_angle_b: read_le_u32(d, 40) as i32,
                solution_degraded: [
                    ThermopileFlags::from_bits_truncate(d[44]),
                    ThermopileFlags::from_bits_truncate(d[45]),
                    ThermopileFlags::from_bits_truncate(d[46]),
                    ThermopileFlags::from_bits_truncate(d[47]),
                    ThermopileFlags::from_bits_truncate(d[48]),
                    ThermopileFlags::from_bits_truncate(d[49]),
                    ThermopileFlags::from_bits_truncate(d[50]),
                    ThermopileFlags::from_bits_truncate(d[51]),
                ],
            },
        )
    }
}

} // verus!
