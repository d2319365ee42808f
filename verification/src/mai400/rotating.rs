//! The rotating variables of the standard telemetry message.
//!
//! Each standard telemetry message carries three 32-bit rotating variables
//! whose meaning depends on the rotating counter (the low five bits of
//! `tlm_counter`); over 24 messages the whole [`RotatingTelemetry`] set is
//! transmitted.

use vstd::prelude::*;
use crate::mai400::rx::StandardTelemetry;

verus! {

/// Keplerian elements (each an f32 bit pattern).
#[derive(Clone, Copy, Debug, Default, PartialEq)]
pub struct KeplerElem {
    /// Semi major axis (km)
    pub semi_major_axis: u32,
    /// Eccentricity
    pub eccentricity: u32,
    /// Inclination (deg)
    pub inclination: u32,
    /// Right ascension of ascending node (deg)
    pub raan: u32,
    /// Argument of perigee (deg)
    pub arg_parigee: u32,
    /// True anomaly (deg)
    pub true_anomoly: u32,
}

/// Values that the device sends a few at a time in the rotating variables.
///
/// Floating-point values are kept as their IEEE-754 bit patterns.
#[derive(Clone, Copy, Debug, Default, PartialEq)]
pub struct RotatingTelemetry {
    /// IGRF magnetic fields (X, Y, Z) (Tesla)
    pub b_field_igrf: [u32; 3],
    /// ECI Sun Vector from Ephemeris (X, Y, Z) (Unit)
    pub sun_vec_eph: [u32; 3],
    /// ECI Spacecraft Position (X, Y, Z) (km)
    pub sc_pos_eci: [u32; 3],
    /// ECI Spacecraft Velocity (X, Y, Z) (km)
    pub sc_vel_eci: [u32; 3],
    /// Keplerian elements
    pub kepler_elem: KeplerElem,
    /// Bdot Gain Acquisition Mode (X, Y, Z)
    pub k_bdot: [u32; 3],
    /// Proportional Gain Normal Mode (X, Y, Z)
    pub kp: [u32; 3],
    /// Derivative Gain Normal Mode (X, Y, Z)
    pub kd: [u32; 3],
    /// Unloading Gain Normal Mode (X, Y, Z)
    pub k_unload: [u32; 3],
    /// CSS{n} Bias (1, 2, 3, 4, 5, 6)
    pub css_bias: [i16; 6],
    /// MAG Bias (X, Y, Z)
    pub mag_bias: [i16; 3],
    /// RWS Bus Voltage (0.00483516483 v/lsb)
    pub rws_volt: i16,
    /// Reserved
    pub rws_press: i16,
    /// Attitude Determination Mode
    pub att_det_mode: u8,
    /// RWS Reset Counter (X, Y, Z)
    pub rws_reset_cntr: [u8; 3],
    /// Sun and Mag Field are aligned
    pub sun_mag_aligned: u8,
    /// Software Minor Version
    pub minor_version: u8,
    /// Software Unit Serial Number
    pub mai_sn: u8,
    /// Orbit Propagation Mode
    pub orbit_prop_mode: u8,
    /// ACS Mode in Operation
    pub acs_op_mode: u8,
    /// ADACS Processor Reset Counter
    pub proc_reset_cntr: u8,
    /// Software Major Version
    pub major_version: u8,
    /// ADS Mode in Operation
    pub ads_op_mode: u8,
    /// CSS{n} Gain (1, 2, 3, 4, 5, 6)
    pub css_gain: [u32; 6],
    /// Mag Gain (X, Y, Z)
    pub mag_gain: [u32; 3],
    /// Epoch of Current Orbit (GPS sec)
    pub orbit_epoch: u32,
    /// True Anomaly at Epoch, Kepler (deg)
    pub true_anomoly_epoch: u32,
    /// Epoch of Next Updated RV (GPS sec)
    pub orbit_epoch_next: u32,
    /// ECI Position at Next Epoch (X, Y, Z) (km)
    pub sc_pos_eci_epoch: [u32; 3],
    /// ECI Velocity at Next Epoch (X, Y, Z) (km/sec)
    pub sc_vel_eci_epoch: [u32; 3],
    /// QbX Wheel Speed Command (rpm)
    pub qb_x_wheel_speed: i16,
    /// QbX Filter Gain
    pub qb_x_filter_gain: u32,
    /// QbX Dipole Gain
    pub qb_x_dipole_gain: u32,
    /// Dipole Gain (X, Y, Z)
    pub dipole_gain: [u32; 3],
    /// Wheel Speed Bias (X, Y, Z) (rpm)
    pub wheel_speed_bias: [i16; 3],
    /// Cosine of Sun/Mag Align Threshold Angle
    pub cos_sun_mag_align_thresh: u32,
    /// Max AngleToGo for Unloading (rad)
    pub unload_ang_thresh: u32,
    /// Quaternion feedback saturation.
    pub q_sat: u32,
    /// Maximum RWA Torque (mNm)
    pub rwa_trq_max: u32,
    /// Reaction Wheel Motor Current (X, Y, Z) (A) (0.0003663003663 A/lsb)
    pub rws_motor_current: [u16; 3],
    /// RWS Motor Temperature (Temperature oC = rwsMotorTemp * 0.0402930 - 50)
    pub rws_motor_temp: i16,
}

/// Low 16 bits of a word.
pub open spec fn low_half(w: u32) -> u16 {
    (w % 65536) as u16
}

/// High 16 bits of a word.
pub open spec fn high_half(w: u32) -> u16 {
    (w / 65536) as u16
}

/// Weight of byte `k` (0 = least significant) of a word.
pub open spec fn byte_weight(k: int) -> int {
    if k <= 0 {
        1
    } else if k == 1 {
        256
    } else if k == 2 {
        65536
    } else {
        16777216
    }
}

/// Byte `k` (0 = least significant) of a word.
pub open spec fn byte_of(w: u32, k: int) -> u8 {
    ((w as int / byte_weight(k)) % 256) as u8
}

/// The rotating counter: the low five bits of `tlm_counter` (the top three
/// carry version information).
pub open spec fn rotating_counter(msg: StandardTelemetry) -> u8 {
    msg.tlm_counter % 32
}

/// The rotating set after taking in the variables of `msg`.
pub open spec fn rotating_updated(r: RotatingTelemetry, msg: StandardTelemetry) -> RotatingTelemetry {
    let a = msg.rotating_variable_a;
    let b = msg.rotating_variable_b;
    let c = msg.rotating_variable_c;
    let k = r.kepler_elem;
    match rotating_counter(msg) {
        0 => RotatingTelemetry { b_field_igrf: [a, b, c], ..r },
        1 => RotatingTelemetry { sun_vec_eph: [a, b, c], ..r },
        2 => RotatingTelemetry { sc_pos_eci: [a, b, c], ..r },
        3 => RotatingTelemetry { sc_vel_eci: [a, b, c], ..r },
        4 => RotatingTelemetry {
            kepler_elem: KeplerElem { semi_major_axis: a, eccentricity: b, inclination: c, ..k },
            ..r
        },
        5 => RotatingTelemetry {
            kepler_elem: KeplerElem { raan: a, arg_parigee: b, true_anomoly: c, ..k },
            ..r
        },
        6 => RotatingTelemetry { k_bdot: [a, b, c], ..r },
        7 => RotatingTelemetry { kp: [a, b, c], ..r },
        8 => RotatingTelemetry { kd: [a, b, c], ..r },
        9 => RotatingTelemetry { k_unload: [a, b, c], ..r },
        10 => RotatingTelemetry {
            css_bias: [
                low_half(a) as i16,
                low_half(b) as i16,
                low_half(c) as i16,
                high_half(a) as i16,
                high_half(b) as i16,
                high_half(c) as i16,
            ],
            ..r
        },
        11 => RotatingTelemetry {
            mag_bias: [low_half(a) as i16, low_half(b) as i16, low_half(c) as i16],
            rws_volt: high_half(a) as i16,
            rws_press: high_half(b) as i16,
            ..r
        },
        12 => RotatingTelemetry {
            att_det_mode: byte_of(a, 0),
            rws_reset_cntr: [byte_of(a, 1), byte_of(b, 1), byte_of(c, 1)],
            sun_mag_aligned: byte_of(a, 2),
            minor_version: byte_of(a, 3),
            mai_sn: byte_of(b, 0),
            orbit_prop_mode: byte_of(b, 2),
            acs_op_mode: byte_of(b, 3),
            proc_reset_cntr: byte_of(c, 0),
            major_version: byte_of(c, 2),
            ads_op_mode: byte_of(c, 3),
            ..r
        },
        13 => RotatingTelemetry {
            css_gain: [a, b, c, r.css_gain[3], r.css_gain[4], r.css_gain[5]],
            ..r
        },
        14 => RotatingTelemetry {
            css_gain: [r.css_gain[0], r.css_gain[1], r.css_gain[2], a, b, c],
            ..r
        },
        15 => RotatingTelemetry { mag_gain: [a, b, c], ..r },
        16 => RotatingTelemetry {
            orbit_epoch: a,
            true_anomoly_epoch: b,
            orbit_epoch_next: c,
            ..r
        },
        17 => RotatingTelemetry { sc_pos_eci_epoch: [a, b, c], ..r },
        18 => RotatingTelemetry { sc_vel_eci_epoch: [a, b, c], ..r },
        19 => RotatingTelemetry {
            qb_x_wheel_speed: high_half(a) as i16,
            qb_x_filter_gain: b,
            qb_x_dipole_gain: c,
            ..r
        },
        20 => RotatingTelemetry { dipole_gain: [a, b, c], ..r },
        21 => RotatingTelemetry {
            wheel_speed_bias: [low_half(a) as i16, low_half(b) as i16, low_half(c) as i16],
            ..r
        },
        22 => RotatingTelemetry {
            cos_sun_mag_align_thresh: a,
            unload_ang_thresh: b,
            q_sat: c,
            ..r
        },
        23 => RotatingTelemetry {
            rwa_trq_max: a,
            rws_motor_current: [low_half(b), high_half(b), low_half(c)],
            rws_motor_temp: high_half(c) as i16,
            ..r
        },
        _ => r,
    }
}

proof fn lemma_halves(w: u32)
    ensures
        w as i16 == low_half(w) as i16,
        w as u16 == low_half(w),
        (w >> 16) as i16 == high_half(w) as i16,
        (w >> 16) as u16 == high_half(w),
{
    assert(w as i16 == ((w % 65536) as u16) as i16) by (bit_vector);
    assert(w as u16 == (w % 65536) as u16) by (bit_vector);
    assert((w >> 16) as i16 == ((w / 65536) as u16) as i16) by (bit_vector);
    assert((w >> 16) as u16 == (w / 65536) as u16) by (bit_vector);
}

proof fn lemma_bytes(w: u32)
    ensures
        w as u8 == byte_of(w, 0),
        (w >> 8) as u8 == byte_of(w, 1),
        (w >> 16) as u8 == byte_of(w, 2),
        (w >> 24) as u8 == byte_of(w, 3),
{
    assert(w as u8 == (w % 256) as u8) by (bit_vector);
    assert((w >> 8) as u8 == ((w / 256) % 256) as u8) by (bit_vector);
    assert((w >> 16) as u8 == ((w / 65536) % 256) as u8) by (bit_vector);
    assert((w >> 24) as u8 == ((w / 16777216) % 256) as u8) by (bit_vector);
}

impl RotatingTelemetry {
    /// Takes in the rotating variables of a standard telemetry message: the
    /// fields that the rotating counter selects are set from variables A, B
    /// and C, and nothing else changes. Counter values above 23 change
    /// nothing.
    pub fn update(&mut self, msg: &StandardTelemetry)
        ensures
            *final(self) == rotating_updated(*old(self), *msg),
    {
        let a: u32 = msg.rotating_variable_a;
        let b: u32 = msg.rotating_variable_b;
        let c: u32 = msg.rotating_variable_c;
        proof {
            lemma_halves(a);
            lemma_halves(b);
            lemma_halves(c);
            lemma_bytes(a);
            lemma_bytes(b);
            lemma_bytes(c);
            let t: u8 = msg.tlm_counter;
            assert(t & 0x1F == t % 32) by (bit_vector);
        }
        match msg.tlm_counter & 0x1F {
            0 => {
                self.b_field_igrf = [a, b, c];
            },
            1 => {
                self.sun_vec_eph = [a, b, c];
            },
            2 => {
                self.sc_pos_eci = [a, b, c];
            },
            3 => {
                self.sc_vel_eci = [a, b, c];
            },
            4 => {
                self.kepler_elem.semi_major_axis = a;
                self.kepler_elem.eccentricity = b;
                self.kepler_elem.inclination = c;
            },
            5 => {
                self.kepler_elem.raan = a;
                self.kepler_elem.arg_parigee = b;
                self.kepler_elem.true_anomoly = c;
            },
            6 => {
                self.k_bdot = [a, b, c];
            },
            7 => {
                self.kp = [a, b, c];
            },
            8 => {
                self.kd = [a, b, c];
            },
            9 => {
                self.k_unload = [a, b, c];
            },
            10 => {
                self.css_bias = [
                    a as i16,
                    b as i16,
                    c as i16,
                    (a >> 16) as i16,
                    (b >> 16) as i16,
                    (c >> 16) as i16,
                ];
            },
            11 => {
                self.mag_bias = [a as i16, b as i16, c as i16];
                self.rws_volt = (a >> 16) as i16;
                self.rws_press = (b >> 16) as i16;
            },
            12 => {
                self.att_det_mode = a as u8;
                self.rws_reset_cntr = [(a >> 8) as u8, (b >> 8) as u8, (c >> 8) as u8];
                self.sun_mag_aligned = (a >> 16) as u8;
                self.minor_version = (a >> 24) as u8;
                self.mai_sn = b as u8;
                self.orbit_prop_mode = (b >> 16) as u8;
                self.acs_op_mode = (b >> 24) as u8;
                self.proc_reset_cntr = c as u8;
                self.major_version = (c >> 16) as u8;
                self.ads_op_mode = (c >> 24) as u8;
            },
            13 => {
                self.css_gain = [a, b, c, self.css_gain[3], self.css_gain[4], self.css_gain[5]];
            },
            14 => {
                self.css_gain = [self.css_gain[0], self.css_gain[1], self.css_gain[2], a, b, c];
            },
            15 => {
                self.mag_gain = [a, b, c];
            },
            16 => {
                self.orbit_epoch = a;
                self.true_anomoly_epoch = b;
                self.orbit_epoch_next = c;
            },
            17 => {
                self.sc_pos_eci_epoch = [a, b, c];
            },
            18 => {
                self.sc_vel_eci_epoch = [a, b, c];
            },
            19 => {
                self.qb_x_wheel_speed = (a >> 16) as i16;
                self.qb_x_filter_gain = b;
                self.qb_x_dipole_gain = c;
            },
            20 => {
                self.dipole_gain = [a, b, c];
            },
            21 => {
                self.wheel_speed_bias = [a as i16, b as i16, c as i16];
            },
            22 => {
                self.cos_sun_mag_align_thresh = a;
                self.unload_ang_thresh = b;
                self.q_sat = c;
            },
            23 => {
                self.rwa_trq_max = a;
                self.rws_motor_current = [b as u16, (b >> 16) as u16, c as u16];
                self.rws_motor_temp = (c >> 16) as i16;
            },
            _ => {},
        }
    }
}

} // verus!

verus! {

/// The rotating set after taking in `msgs`, first to last.
pub open spec fn rotating_updates(r: RotatingTelemetry, msgs: Seq<StandardTelemetry>) -> RotatingTelemetry
    decreases msgs.len(),
{
    if msgs.len() == 0 {
        r
    } else {
        rotating_updated(rotating_updates(r, msgs.drop_last()), msgs.last())
    }
}

/// `a` and `b` agree on the values that counters below `k` carry.
pub open spec fn agree_below(k: int, a: RotatingTelemetry, b: RotatingTelemetry) -> bool {
    &&& k > 0 ==> a.b_field_igrf == b.b_field_igrf
    &&& k > 1 ==> a.sun_vec_eph == b.sun_vec_eph
    &&& k > 2 ==> a.sc_pos_eci == b.sc_pos_eci
    &&& k > 3 ==> a.sc_vel_eci == b.sc_vel_eci
    &&& k > 4 ==> {
        &&& a.kepler_elem.semi_major_axis == b.kepler_elem.semi_major_axis
        &&& a.kepler_elem.eccentricity == b.kepler_elem.eccentricity
        &&& a.kepler_elem.inclination == b.kepler_elem.inclination
    }
    &&& k > 5 ==> {
        &&& a.kepler_elem.raan == b.kepler_elem.raan
        &&& a.kepler_elem.arg_parigee == b.kepler_elem.arg_parigee
        &&& a.kepler_elem.true_anomoly == b.kepler_elem.true_anomoly
    }
    &&& k > 6 ==> a.k_bdot == b.k_bdot
    &&& k > 7 ==> a.kp == b.kp
    &&& k > 8 ==> a.kd == b.kd
    &&& k > 9 ==> a.k_unload == b.k_unload
    &&& k > 10 ==> a.css_bias == b.css_bias
    &&& k > 11 ==> a.mag_bias == b.mag_bias && a.rws_volt == b.rws_volt && a.rws_press
        == b.rws_press
    &&& k > 12 ==> {
        &&& a.att_det_mode == b.att_det_mode
        &&& a.rws_reset_cntr == b.rws_reset_cntr
        &&& a.sun_mag_aligned == b.sun_mag_aligned
        &&& a.minor_version == b.minor_version
        &&& a.mai_sn == b.mai_sn
        &&& a.orbit_prop_mode == b.orbit_prop_mode
        &&& a.acs_op_mode == b.acs_op_mode
        &&& a.proc_reset_cntr == b.proc_reset_cntr
        &&& a.major_version == b.major_version
        &&& a.ads_op_mode == b.ads_op_mode
    }
    &&& k > 13 ==> a.css_gain[0] == b.css_gain[0] && a.css_gain[1] == b.css_gain[1]
        && a.css_gain[2] == b.css_gain[2]
    &&& k > 14 ==> a.css_gain == b.css_gain
    &&& k > 15 ==> a.mag_gain == b.mag_gain
    &&& k > 16 ==> a.orbit_epoch == b.orbit_epoch && a.true_anomoly_epoch == b.true_anomoly_epoch
        && a.orbit_epoch_next == b.orbit_epoch_next
    &&& k > 17 ==> a.sc_pos_eci_epoch == b.sc_pos_eci_epoch
    &&& k > 18 ==> a.sc_vel_eci_epoch == b.sc_vel_eci_epoch
    &&& k > 19 ==> a.qb_x_wheel_speed == b.qb_x_wheel_speed && a.qb_x_filter_gain
        == b.qb_x_filter_gain && a.qb_x_dipole_gain == b.qb_x_dipole_gain
    &&& k > 20 ==> a.dipole_gain == b.dipole_gain
    &&& k > 21 ==> a.wheel_speed_bias == b.wheel_speed_bias
    &&& k > 22 ==> a.cos_sun_mag_align_thresh == b.cos_sun_mag_align_thresh
        && a.unload_ang_thresh == b.unload_ang_thresh && a.q_sat == b.q_sat
    &&& k > 23 ==> a.rwa_trq_max == b.rwa_trq_max && a.rws_motor_current == b.rws_motor_current
        && a.rws_motor_temp == b.rws_motor_temp
}

/// Taking in the message with counter `k` keeps what two sets agree on and
/// makes them agree on what counter `k` carries.
proof fn lemma_agree_step(k: int, a: RotatingTelemetry, b: RotatingTelemetry, msg: StandardTelemetry)
    requires
        0 <= k < 24,
        rotating_counter(msg) == k,
        agree_below(k, a, b),
    ensures
        agree_below(k + 1, rotating_updated(a, msg), rotating_updated(b, msg)),
{
}

/// After the first `n` messages of a rotation, two sets agree on what
/// those messages carried.
proof fn lemma_agree_prefix(r1: RotatingTelemetry, r2: RotatingTelemetry, msgs: Seq<StandardTelemetry>, n: int)
    requires
        0 <= n <= 24,
        msgs.len() == 24,
        forall|k: int| 0 <= k < 24 ==> rotating_counter(#[trigger] msgs[k]) == k,
    ensures
        agree_below(n, rotating_updates(r1, msgs.take(n)), rotating_updates(r2, msgs.take(n))),
    decreases n,
{
    if n > 0 {
        lemma_agree_prefix(r1, r2, msgs, n - 1);
        let t = msgs.take(n);
        assert(t.drop_last() =~= msgs.take(n - 1));
        assert(t.last() == msgs[n - 1]);
        lemma_agree_step(
            n - 1,
            rotating_updates(r1, msgs.take(n - 1)),
            rotating_updates(r2, msgs.take(n - 1)),
            msgs[n - 1],
        );
    }
}

/// Over a full rotation (24 messages with counters 0 to 23, in order)
/// every rotating value is sent: what the set holds afterwards does not
/// depend on what it held before.
pub proof fn lemma_full_rotation(r1: RotatingTelemetry, r2: RotatingTelemetry, msgs: Seq<StandardTelemetry>)
    requires
        msgs.len() == 24,
        forall|k: int| 0 <= k < 24 ==> rotating_counter(#[trigger] msgs[k]) == k,
    ensures
        rotating_updates(r1, msgs) == rotating_updates(r2, msgs),
{
    lemma_agree_prefix(r1, r2, msgs, 24);
    assert(msgs.take(24) =~= msgs);
    let a = rotating_updates(r1, msgs);
    let b = rotating_updates(r2, msgs);
    assert(a.kepler_elem == b.kepler_elem);
}

/// Messages 13 and 14 each carry half of the six CSS gains: counter 13 sets
/// gains 1 to 3 from variables A, B, C and counter 14 sets gains 4 to 6,
/// each leaving the other half and every other field as it was; no other
/// counter touches the gains.
pub proof fn lemma_css_gain_halves(r: RotatingTelemetry, m: StandardTelemetry)
    ensures
        ({
            let u = rotating_updated(r, m);
            rotating_counter(m) == 13 ==> {
                &&& u.css_gain[0] == m.rotating_variable_a
                &&& u.css_gain[1] == m.rotating_variable_b
                &&& u.css_gain[2] == m.rotating_variable_c
                &&& u.css_gain[3] == r.css_gain[3]
                &&& u.css_gain[4] == r.css_gain[4]
                &&& u.css_gain[5] == r.css_gain[5]
                &&& (RotatingTelemetry { css_gain: r.css_gain, ..u }) == r
            }
        }),
        ({
            let u = rotating_updated(r, m);
            rotating_counter(m) == 14 ==> {
                &&& u.css_gain[0] == r.css_gain[0]
                &&& u.css_gain[1] == r.css_gain[1]
                &&& u.css_gain[2] == r.css_gain[2]
                &&& u.css_gain[3] == m.rotating_variable_a
                &&& u.css_gain[4] == m.rotating_variable_b
                &&& u.css_gain[5] == m.rotating_variable_c
                &&& (RotatingTelemetry { css_gain: r.css_gain, ..u }) == r
            }
        }),
        rotating_counter(m) != 13 && rotating_counter(m) != 14 ==> rotating_updated(r, m).css_gain
            == r.css_gain,
{
}

/// After messages 13 and 14, in either order, the six CSS gains are
/// variables A, B, C of message 13 followed by those of message 14.
pub proof fn lemma_css_gain_pair(r: RotatingTelemetry, m13: StandardTelemetry, m14: StandardTelemetry)
    requires
        rotating_counter(m13) == 13,
        rotating_counter(m14) == 14,
    ensures
        rotating_updated(rotating_updated(r, m13), m14).css_gain == [
            m13.rotating_variable_a,
            m13.rotating_variable_b,
            m13.rotating_variable_c,
            m14.rotating_variable_a,
            m14.rotating_variable_b,
            m14.rotating_variable_c,
        ],
        rotating_updated(rotating_updated(r, m14), m13) == rotating_updated(
            rotating_updated(r, m13),
            m14,
        ),
{
    lemma_css_gain_halves(r, m13);
    lemma_css_gain_halves(rotating_updated(r, m13), m14);
    lemma_css_gain_halves(r, m14);
    lemma_css_gain_halves(rotating_updated(r, m14), m13);
}

/// Messages with different counters set different fields, so the order in
/// which they arrive does not matter.
#[verifier::rlimit(100)]
#[verifier::spinoff_prover]
pub proof fn lemma_updates_commute(r: RotatingTelemetry, m1: StandardTelemetry, m2: StandardTelemetry)
    requires
        rotating_counter(m1) != rotating_counter(m2),
    ensures
        rotating_updated(rotating_updated(r, m1), m2) == rotating_updated(
            rotating_updated(r, m2),
            m1,
        ),
{
}

} // verus!
