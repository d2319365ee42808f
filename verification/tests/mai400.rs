use kubos_apis::mai400::device::{split_message, MessageEvent, MessageReader, MessageRequest};
use kubos_apis::mai400::rx::{RawIMU, ThermopileFlags};
use kubos_apis::mai400::tx::{
    frame_message, ConfirmReset, RequestReset, SetAcsMode, SetAcsModeSun, SetGPSTime, SetRV,
};

#[test]
fn reset_good() {
    let request: Vec<u8> = vec![0x90, 0xEB, 0x5A, 0x0, 0x0, 0x0, 0x0, 0x0, 0x0, 0x0, 0x0, 0x0, 0x0, 0x0, 0x0, 0x0, 0x0, 0x0, 0x0, 0x0, 0x0, 0x0, 0x0, 0x0, 0x0, 0x0, 0x0, 0x0, 0x0, 0x0, 0x0, 0x0, 0x0, 0x0, 0x0, 0x0, 0x0, 0x0, 0xD5, 0x1];
    let confirm: Vec<u8> = vec![0x90, 0xEB, 0xF1, 0x0, 0x0, 0x0, 0x0, 0x0, 0x0, 0x0, 0x0, 0x0, 0x0, 0x0, 0x0, 0x0, 0x0, 0x0, 0x0, 0x0, 0x0, 0x0, 0x0, 0x0, 0x0, 0x0, 0x0, 0x0, 0x0, 0x0, 0x0, 0x0, 0x0, 0x0, 0x0, 0x0, 0x0, 0x0, 0x6C, 0x2];
    assert_eq!(frame_message(&RequestReset::default()), request);
    assert_eq!(frame_message(&ConfirmReset::default()), confirm);
}

#[test]
fn tx_set_mode_good() {
    let expected: Vec<u8> = vec![0x90, 0xEB, 0x0, 0x1, 0x2, 0x0, 0x3, 0x0, 0x4, 0x0, 0x5, 0x0, 0x0, 0x0, 0x0, 0x0, 0x0, 0x0, 0x0, 0x0, 0x0, 0x0, 0x0, 0x0, 0x0, 0x0, 0x0, 0x0, 0x0, 0x0, 0x0, 0x0, 0x0, 0x0, 0x0, 0x0, 0x0, 0x0, 0x8A, 0x1];
    let request = SetAcsMode { mode: 0x01, qbi_cmd: [0x02, 0x03, 0x04, 0x05], ..Default::default() };
    assert_eq!(frame_message(&request), expected);
}

#[test]
fn set_mode_sun_good() {
    let expected: Vec<u8> = vec![0x90, 0xEB, 0x0, 0x8, 0x1, 0x0, 0xCD, 0xCC, 0xC, 0x40, 0x0, 0x0, 0x0, 0x0, 0x0, 0x0, 0x0, 0x0, 0x0, 0x0, 0x0, 0x0, 0x0, 0x0, 0x0, 0x0, 0x0, 0x0, 0x0, 0x0, 0x0, 0x0, 0x0, 0x0, 0x0, 0x0, 0x0, 0x0, 0x69, 0x3];
    let request = SetAcsModeSun {
        mode: 0x08,
        sun_angle_enable: 1,
        sun_rot_angle: 2.2f32.to_bits(),
        ..Default::default()
    };
    assert_eq!(frame_message(&request), expected);
}

#[test]
fn set_gps_time_good() {
    let expected: Vec<u8> = vec![0x90, 0xEB, 0x44, 0x92, 0x3C, 0x74, 0x47, 0x0, 0x0, 0x0, 0x0, 0x0, 0x0, 0x0, 0x0, 0x0, 0x0, 0x0, 0x0, 0x0, 0x0, 0x0, 0x0, 0x0, 0x0, 0x0, 0x0, 0x0, 0x0, 0x0, 0x0, 0x0, 0x0, 0x0, 0x0, 0x0, 0x0, 0x0, 0x48, 0x3];
    let request = SetGPSTime { gps_time: 1198800018, ..Default::default() };
    assert_eq!(frame_message(&request), expected);
}

#[test]
fn set_rv_good() {
    let expected: Vec<u8> = vec![0x90, 0xEB, 0x41, 0xCD, 0xCC, 0x8C, 0x3F, 0xCD, 0xCC, 0xC, 0x40, 0x33, 0x33, 0x53, 0x40, 0xCD, 0xCC, 0x8C, 0x40, 0x0, 0x0, 0xB0, 0x40, 0x33, 0x33, 0xD3, 0x40, 0x92, 0x3C, 0x74, 0x47, 0x0, 0x0, 0x0, 0x0, 0x0, 0x0, 0x0, 0x55, 0xD];
    let request = SetRV {
        eci_pos: [1.1f32.to_bits(), 2.2f32.to_bits(), 3.3f32.to_bits()],
        eci_vel: [4.4f32.to_bits(), 5.5f32.to_bits(), 6.6f32.to_bits()],
        time_epoch: 1198800018,
        ..Default::default()
    };
    assert_eq!(frame_message(&request), expected);
}

#[test]
fn thermopile_flags_list_names_in_order() {
    let flags = ThermopileFlags::from_bits_truncate(0x08 | 0x10);
    assert_eq!(flags.to_vec(), vec!["NO_COMM", "BAD_EARTH_REF"]);
}

#[test]
fn thermopile_flags_empty_list() {
    assert_eq!(ThermopileFlags::from_bits_truncate(0).to_vec(), vec!["(empty)"]);
    assert_eq!(ThermopileFlags::from_bits_truncate(0xC0).to_vec(), vec!["(empty)"]);
    assert_eq!(
        ThermopileFlags::from_bits_truncate(0xFF).to_vec(),
        vec![
            "DIP_ANGLE_LIMIT",
            "SUN_IN_EPHEMERIS",
            "THERMOPILE_SAT",
            "NO_COMM",
            "BAD_EARTH_REF",
            "AUX_WIDE_FOV"
        ]
    );
}

#[test]
fn frame_checksum_is_byte_sum() {
    let request = SetGPSTime { gps_time: 0xFFFF_FFFF, ..Default::default() };
    let frame = frame_message(&request);
    assert_eq!(frame.len(), 40);
    let sum: u32 = frame[..38].iter().map(|b| *b as u32).sum();
    assert_eq!(frame[38] as u32 + 256 * frame[39] as u32, sum);
}

#[test]
fn reader_skips_bad_sync_and_completes_set() {
    let reader = MessageReader::new();
    let (reader, req) = reader.step(MessageEvent::Data(vec![0x12, 0x34]));
    assert_eq!(req, MessageRequest::Read { len: 2, timeout_ms: 250 });
    let (reader, req) = reader.step(MessageEvent::Data(vec![0x90, 0xEB]));
    assert_eq!(req, MessageRequest::Read { len: 236, timeout_ms: 60 });
    let body = vec![7u8; 236];
    let (reader, req) = reader.step(MessageEvent::Data(body.clone()));
    let mut expected = vec![0x90, 0xEB];
    expected.extend_from_slice(&body);
    assert_eq!(req, MessageRequest::Done(expected));
    assert!(reader.msg.is_empty());
    assert!(reader.awaiting_sync);
}

#[test]
fn reader_timeout_restarts_sync_search() {
    let reader = MessageReader::new();
    let (reader, _) = reader.step(MessageEvent::Data(vec![0x90, 0xEB]));
    let (reader, req) = reader.step(MessageEvent::TimedOut);
    assert_eq!(req, MessageRequest::Read { len: 2, timeout_ms: 250 });
    assert!(reader.awaiting_sync);
    assert_eq!(reader.msg, vec![0x90, 0xEB]);
    let (_, req) = reader.step(MessageEvent::ReadFailed);
    assert_eq!(req, MessageRequest::Fail);
}

#[test]
fn split_checks_each_message() {
    // A zero standard telemetry message sums to its zero trailer; the
    // auxiliary messages lack their sync word.
    let msg = vec![0u8; 238];
    let (std, imu, irehs) = split_message(msg);
    assert!(std.is_some());
    assert!(imu.is_none());
    assert!(irehs.is_none());
}

#[test]
fn raw_imu_checks_its_crc() {
    let msg: Vec<u8> = vec![
        0x91, 0xEA, 0, 0, 0, 0, 1, 0, 2, 0, 3, 0, 4, 0, 5, 0, 0xFF, 0xFF, 0x19, 0x24, 0x03,
    ];
    let imu = RawIMU::new(msg.clone()).unwrap();
    assert_eq!(imu.accel, [1, 2, 3]);
    assert_eq!(imu.gyro, [4, 5, -1]);
    assert_eq!(imu.gyro_temp, 0x19);
    let mut bad = msg.clone();
    bad[20] ^= 1;
    assert!(RawIMU::new(bad).is_none());
    let mut other_sync = msg;
    other_sync[0] = 0x90;
    assert!(RawIMU::new(other_sync).is_none());
}

#[test]
fn get_message_bad() {
    let reader = MessageReader::new();
    let (_, req) = reader.step(MessageEvent::ReadFailed);
    assert_eq!(req, MessageRequest::Fail);
}
