//! Data logs produced by the receiver.
//!
//! Floating-point values are kept as their IEEE-754 bit patterns.

use vstd::prelude::*;
use crate::bytes::{le_u32_at, le_u64_at, read_le_u32, read_le_u64};
use crate::novatel::messages::{MessageID, ReceiverStatusFlags};
use crate::text::{field_string, field_text};

verus! {

/// Length of a BESTXYZ log body.
pub const BESTXYZ_LEN: usize = 112;

/// Length of an RXSTATUSEVENT log body.
pub const RXSTATUSEVENT_LEN: usize = 44;

/// Length of one component record of a VERSION log.
pub const COMPONENT_SIZE: usize = 108;

/// Best available position and velocity, in ECEF coordinates.
#[derive(Clone, Debug, Default)]
pub struct BestXYZLog {
    /// Receiver status (from the message header)
    pub recv_status: ReceiverStatusFlags,
    /// Time status (from the message header)
    pub time_status: u8,
    /// GPS week (from the message header)
    pub week: u16,
    /// Milliseconds into the week (from the message header)
    pub ms: i32,
    /// Position solution status
    pub pos_status: u32,
    /// Position type
    pub pos_type: u32,
    /// Position (X, Y, Z), m (f64 bits)
    pub position: [u64; 3],
    /// Standard deviation of the position (X, Y, Z), m (f32 bits)
    pub pos_deviation: [u32; 3],
    /// Velocity solution status
    pub vel_status: u32,
    /// Velocity type
    pub vel_type: u32,
    /// Velocity (X, Y, Z), m/s (f64 bits)
    pub velocity: [u64; 3],
    /// Standard deviation of the velocity (X, Y, Z), m/s (f32 bits)
    pub vel_deviation: [u32; 3],
    /// Base station ID
    pub station_id: String,
    /// Latency of the velocity time tag, s (f32 bits)
    pub vel_time_latency: u32,
    /// Differential age, s (f32 bits)
    pub diff_age: u32,
    /// Solution age, s (f32 bits)
    pub sol_age: u32,
    /// Number of satellites tracked
    pub num_sats: u8,
    /// Number of satellites used in the solution
    pub num_sat_vehicles: u8,
    /// Number of GPS and GLONASS L1 satellites used
    pub num_gg_l1: u8,
    /// Number of multi-frequency satellites used
    pub num_multi_sats: u8,
    /// Extended solution status
    pub ext_sol_stat: u8,
    /// Galileo and BeiDou signals used
    pub gal_beidou_sig: u8,
    /// GPS and GLONASS signals used
    pub gps_glonass_sig: u8,
}

/// Whether `log` is what a BESTXYZ body reads as, with the given header
/// fields.
pub open spec fn best_xyz_from(
    log: BestXYZLog,
    recv_status: ReceiverStatusFlags,
    time_status: u8,
    week: u16,
    ms: i32,
    raw: Seq<u8>,
) -> bool {
    &&& log.recv_status == recv_status
    &&& log.time_status == time_status
    &&& log.week == week
    &&& log.ms == ms
    &&& log.pos_status == le_u32_at(raw, 0)
    &&& log.pos_type == le_u32_at(raw, 4)
    &&& log.position == [le_u64_at(raw, 8), le_u64_at(raw, 16), le_u64_at(raw, 24)]
    &&& log.pos_deviation == [le_u32_at(raw, 32), le_u32_at(raw, 36), le_u32_at(raw, 40)]
    &&& log.vel_status == le_u32_at(raw, 44)
    &&& log.vel_type == le_u32_at(raw, 48)
    &&& log.velocity == [le_u64_at(raw, 52), le_u64_at(raw, 60), le_u64_at(raw, 68)]
    &&& log.vel_deviation == [le_u32_at(raw, 76), le_u32_at(raw, 80), le_u32_at(raw, 84)]
    &&& log.station_id@ == field_text(raw.subrange(88, 92))
    &&& log.vel_time_latency == le_u32_at(raw, 92)
    &&& log.diff_age == le_u32_at(raw, 96)
    &&& log.sol_age == le_u32_at(raw, 100)
    &&& log.num_sats == raw[104]
    &&& log.num_sat_vehicles == raw[105]
    &&& log.num_gg_l1 == raw[106]
    &&& log.num_multi_sats == raw[107]
    &&& log.ext_sol_stat == raw[109]
    &&& log.gal_beidou_sig == raw[110]
    &&& log.gps_glonass_sig == raw[111]
}

/// Where the readings of a BESTXYZ log lie in its body: the position
/// (X, Y, Z) in the three 8-byte words from byte 8, its deviations in the
/// three 4-byte words from byte 32, the velocity in the three 8-byte words
/// from byte 52 and its deviations in the three 4-byte words from byte 76,
/// each little-endian and in axis order.
pub proof fn lemma_best_xyz_layout(
    log: BestXYZLog,
    recv_status: ReceiverStatusFlags,
    time_status: u8,
    week: u16,
    ms: i32,
    raw: Seq<u8>,
)
    requires
        best_xyz_from(log, recv_status, time_status, week, ms, raw),
    ensures
        forall|i: int| 0 <= i < 3 ==> #[trigger] log.position[i] == le_u64_at(raw, 8 + 8 * i),
        forall|i: int| 0 <= i < 3 ==> #[trigger] log.pos_deviation[i] == le_u32_at(raw, 32 + 4 * i),
        forall|i: int| 0 <= i < 3 ==> #[trigger] log.velocity[i] == le_u64_at(raw, 52 + 8 * i),
        forall|i: int| 0 <= i < 3 ==> #[trigger] log.vel_deviation[i] == le_u32_at(raw, 76 + 4 * i),
        log.pos_status == le_u32_at(raw, 0),
        log.pos_type == le_u32_at(raw, 4),
        log.vel_status == le_u32_at(raw, 44),
        log.vel_type == le_u32_at(raw, 48),
{
    assert forall|i: int| 0 <= i < 3 implies #[trigger] log.position[i] == le_u64_at(raw, 8 + 8 * i) by {
        if i == 1 {} else if i == 2 {}
    }
    assert forall|i: int| 0 <= i < 3 implies #[trigger] log.pos_deviation[i] == le_u32_at(raw, 32 + 4 * i) by {
        if i == 1 {} else if i == 2 {}
    }
    assert forall|i: int| 0 <= i < 3 implies #[trigger] log.velocity[i] == le_u64_at(raw, 52 + 8 * i) by {
        if i == 1 {} else if i == 2 {}
    }
    assert forall|i: int| 0 <= i < 3 implies #[trigger] log.vel_deviation[i] == le_u32_at(raw, 76 + 4 * i) by {
        if i == 1 {} else if i == 2 {}
    }
}

impl BestXYZLog {
    /// Reads a BESTXYZ body (byte 108 is reserved); `None` when the body is
    /// shorter than [`BESTXYZ_LEN`].
    pub fn new(recv_status: ReceiverStatusFlags, time_status: u8, week: u16, ms: i32, raw: Vec<u8>) -> (r: Option<BestXYZLog>)
        ensures
            raw@.len() < BESTXYZ_LEN <==> r is None,
            r matches Some(log) ==> best_xyz_from(log, recv_status, time_status, week, ms, raw@),
    {
        if raw.len() < BESTXYZ_LEN {
            return None;
        }
        let b: &[u8] = raw.as_slice();
        Some(
            BestXYZLog {
                recv_status,
                time_status,
                week,
                ms,
                pos_status: read_le_u32(b, 0),
                pos_type: read_le_u32(b, 4),
                position: [read_le_u64(b, 8), read_le_u64(b, 16), read_le_u64(b, 24)],
                pos_deviation: [read_le_u32(b, 32), read_le_u32(b, 36), read_le_u32(b, 40)],
                vel_status: read_le_u32(b, 44),
                vel_type: read_le_u32(b, 48),
                velocity: [read_le_u64(b, 52), read_le_u64(b, 60), read_le_u64(b, 68)],
                vel_deviation: [read_le_u32(b, 76), read_le_u32(b, 80), read_le_u32(b, 84)],
                station_id: field_string(b, 88, 92),
                vel_time_latency: read_le_u32(b, 92),
                diff_age: read_le_u32(b, 96),
                sol_age: read_le_u32(b, 100),
                num_sats: b[104],
                num_sat_vehicles: b[105],
                num_gg_l1: b[106],
                num_multi_sats: b[107],
                ext_sol_stat: b[109],
                gal_beidou_sig: b[110],
                gps_glonass_sig: b[111],
            },
        )
    }
}

/// An event of the receiver status word.
#[derive(Clone, Debug, Default)]
pub struct RxStatusEventLog {
    /// Receiver status (from the message header)
    pub recv_status: ReceiverStatusFlags,
    /// Time status (from the message header)
    pub time_status: u8,
    /// GPS week (from the message header)
    pub week: u16,
    /// Milliseconds into the week (from the message header)
    pub ms: i32,
    /// Status word the event concerns
    pub word: u32,
    /// Bit position of the event
    pub bit: u32,
    /// Set or cleared
    pub event: u32,
    /// Text description
    pub description: String,
}

/// Whether `log` is what an RXSTATUSEVENT body reads as, with the given
/// header fields.
pub open spec fn rx_status_event_from(
    log: RxStatusEventLog,
    recv_status: ReceiverStatusFlags,
    time_status: u8,
    week: u16,
    ms: i32,
    raw: Seq<u8>,
) -> bool {
    &&& log.recv_status == recv_status
    &&& log.time_status == time_status
    &&& log.week == week
    &&& log.ms == ms
    &&& log.word == le_u32_at(raw, 0)
    &&& log.bit == le_u32_at(raw, 4)
    &&& log.event == le_u32_at(raw, 8)
    &&& log.description@ == field_text(raw.subrange(12, 44))
}

impl RxStatusEventLog {
    /// Reads an RXSTATUSEVENT body; `None` when the body is shorter than
    /// [`RXSTATUSEVENT_LEN`].
    pub fn new(recv_status: ReceiverStatusFlags, time_status: u8, week: u16, ms: i32, raw: &[u8]) -> (r: Option<RxStatusEventLog>)
        ensures
            raw@.len() < RXSTATUSEVENT_LEN <==> r is None,
            r matches Some(log) ==> rx_status_event_from(log, recv_status, time_status, week, ms, raw@),
    {
        if raw.len() < RXSTATUSEVENT_LEN {
            return None;
        }
        Some(
            RxStatusEventLog {
                recv_status,
                time_status,
                week,
                ms,
                word: read_le_u32(raw, 0),
                bit: read_le_u32(raw, 4),
                event: read_le_u32(raw, 8),
                description: field_string(raw, 12, 44),
            },
        )
    }
}

/// Version information of one component of the receiver.
#[derive(Clone, Debug, Default)]
pub struct Component {
    /// Component type
    pub comp_type: u32,
    /// Model
    pub model: String,
    /// Serial number
    pub serial_num: String,
    /// Hardware version
    pub hw_version: String,
    /// Software version
    pub sw_version: String,
    /// Boot code version
    pub boot_version: String,
    /// Firmware compile date
    pub compile_date: String,
    /// Firmware compile time
    pub compile_time: String,
}

/// Whether `c` is what a component record reads as.
pub open spec fn component_from(c: Component, raw: Seq<u8>) -> bool {
    &&& c.comp_type == le_u32_at(raw, 0)
    &&& c.model@ == field_text(raw.subrange(4, 20))
    &&& c.serial_num@ == field_text(raw.subrange(20, 36))
    &&& c.hw_version@ == field_text(raw.subrange(36, 52))
    &&& c.sw_version@ == field_text(raw.subrange(52, 68))
    &&& c.boot_version@ == field_text(raw.subrange(68, 84))
    &&& c.compile_date@ == field_text(raw.subrange(84, 96))
    &&& c.compile_time@ == field_text(raw.subrange(96, 108))
}

/// Reads the component record at `off`.
fn parse_component(b: &[u8], off: usize) -> (r: Component)
    requires
        off + COMPONENT_SIZE <= b@.len(),
    ensures
        component_from(r, b@.subrange(off as int, off + COMPONENT_SIZE)),
{
    let _len: usize = b.len();
    let c: &[u8] = vstd::slice::slice_subrange(b, off, off + COMPONENT_SIZE);
    Component {
        comp_type: read_le_u32(c, 0),
        model: field_string(c, 4, 20),
        serial_num: field_string(c, 20, 36),
        hw_version: field_string(c, 36, 52),
        sw_version: field_string(c, 52, 68),
        boot_version: field_string(c, 68, 84),
        compile_date: field_string(c, 84, 96),
        compile_time: field_string(c, 96, 108),
    }
}

/// Version information of the receiver's components.
#[derive(Clone, Debug, Default)]
pub struct VersionLog {
    /// Number of components the receiver reported
    pub num_components: u32,
    /// The component records that were whole
    pub components: Vec<Component>,
}

/// Whether `log` is what a VERSION body reads as: the component count, then
/// one component per whole 108-byte record after it (a trailing partial
/// record is dropped).
pub open spec fn version_from(log: VersionLog, raw: Seq<u8>) -> bool {
    &&& log.num_components == le_u32_at(raw, 0)
    &&& log.components@.len() == (raw.len() - 4) / (COMPONENT_SIZE as int)
    &&& forall|i: int|
        0 <= i < log.components@.len() ==> component_from(
            #[trigger] log.components@[i],
            raw.subrange(4 + i * COMPONENT_SIZE, 4 + (i + 1) * COMPONENT_SIZE),
        )
}

impl VersionLog {
    /// Reads a VERSION body of at least four bytes.
    pub fn new(raw: Vec<u8>) -> (r: Option<VersionLog>)
        requires
            raw@.len() >= 4,
        ensures
            r matches Some(log) && version_from(log, raw@),
    {
        let b: &[u8] = raw.as_slice();
        let n: usize = b.len();
        let mut components: Vec<Component> = Vec::new();
        let mut off: usize = 4;
        while COMPONENT_SIZE <= n - off
            invariant
                n == b@.len(),
                4 <= off <= n,
                off == 4 + components@.len() * COMPONENT_SIZE,
                forall|i: int|
                    0 <= i < components@.len() ==> component_from(
                        #[trigger] components@[i],
                        b@.subrange(4 + i * COMPONENT_SIZE, 4 + (i + 1) * COMPONENT_SIZE),
                    ),
            decreases n - off,
        {
            let c: Component = parse_component(b, off);
            components.push(c);
            off = off + COMPONENT_SIZE;
        }
        proof {
            let k = components@.len() as int;
            assert(off == 4 + k * 108);
            assert(n < off + 108);
            assert((n - 4) / 108 == k) by (nonlinear_arith)
                requires
                    4 + k * 108 <= n,
                    n < 4 + (k + 1) * 108,
                    k >= 0,
            ;
        }
        Some(VersionLog { num_components: read_le_u32(b, 0), components })
    }
}

/// A data log.
#[derive(Clone, Debug)]
pub enum Log {
    /// Best position and velocity
    BestXYZ(BestXYZLog),
    /// Receiver status event
    RxStatusEvent(RxStatusEventLog),
    /// Component versions
    Version(VersionLog),
}

/// Whether a log body of this kind can be given to [`Log::new`]: VERSION
/// bodies must hold the component count.
pub open spec fn log_body_ok(id: MessageID, raw: Seq<u8>) -> bool {
    id == MessageID::Version ==> raw.len() >= 4
}

/// Whether `r` is what [`Log::new`] gives for a log of kind `id` with these
/// header fields and body.
pub open spec fn log_from(
    r: Option<Log>,
    id: MessageID,
    recv_status: ReceiverStatusFlags,
    time_status: u8,
    week: u16,
    ms: i32,
    raw: Seq<u8>,
) -> bool {
    match id {
        MessageID::BestXYZ => if raw.len() < BESTXYZ_LEN {
            r is None
        } else {
            r matches Some(Log::BestXYZ(l)) && best_xyz_from(l, recv_status, time_status, week, ms, raw)
        },
        MessageID::RxStatusEvent => if raw.len() < RXSTATUSEVENT_LEN {
            r is None
        } else {
            r matches Some(Log::RxStatusEvent(l)) && rx_status_event_from(
                l,
                recv_status,
                time_status,
                week,
                ms,
                raw,
            )
        },
        MessageID::Version => r matches Some(Log::Version(l)) && version_from(l, raw),
        _ => r is None,
    }
}

impl Log {
    /// Reads a log body of the given kind; `None` for kinds that are not
    /// logs and for bodies too short for their kind.
    pub fn new(
        id: MessageID,
        recv_status: ReceiverStatusFlags,
        time_status: u8,
        week: u16,
        ms: i32,
        raw: Vec<u8>,
    ) -> (r: Option<Log>)
        requires
            log_body_ok(id, raw@),
        ensures
            log_from(r, id, recv_status, time_status, week, ms, raw@),
    {
        match id {
            MessageID::BestXYZ => match BestXYZLog::new(recv_status, time_status, week, ms, raw) {
                Some(log) => Some(Log::BestXYZ(log)),
                None => None,
            },
            MessageID::RxStatusEvent => match RxStatusEventLog::new(
                recv_status,
                time_status,
                week,
                ms,
                raw.as_slice(),
            ) {
                Some(log) => Some(Log::RxStatusEvent(log)),
                None => None,
            },
            MessageID::Version => match VersionLog::new(raw) {
                Some(log) => Some(Log::Version(log)),
                None => None,
            },
            _ => None,
        }
    }
}

} // verus!
