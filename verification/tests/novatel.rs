use kubos_apis::novatel::commands::{position_trigger, LogCmd, LogTrigger, UnlogAllCmd, UnlogCmd};
use kubos_apis::novatel::crc32::CRC32;
use kubos_apis::novatel::logs::RxStatusEventLog;
use kubos_apis::novatel::messages::{Header, MessageID, Port, ReceiverStatusFlags};
use kubos_apis::novatel::oem6::{
    abbreviated_response, frame_message, log_from_message, on_log_queue, LogQueueEvent, LogWait,
    OEMError,
};
use kubos_apis::novatel::reader::{ReadEvent, ReadRequest, ReadThread};
use kubos_apis::novatel::response::{Response, ResponseID};

#[test]
fn crc32_check_value() {
    assert_eq!(CRC32(0).calc_crc(b"123456789").0, 0x2DFD2D88);
    assert_eq!(CRC32(0).calc_crc(b"").0, 0);
}

#[test]
fn unlog_all_frame() {
    let cmd = UnlogAllCmd::new(8, true);
    let expected: Vec<u8> = vec![
        0xaa, 0x44, 0x12, 0x1c, 0x26, 0x00, 0x00, 0xc0, 0x08, 0x00, 0x00, 0x00, 0x00, 0x00, 0x00,
        0x00, 0x00, 0x00, 0x00, 0x00, 0x00, 0x00, 0x00, 0x00, 0x00, 0x00, 0x00, 0x00, 0x08, 0x00,
        0x00, 0x00, 0x01, 0x00, 0x00, 0x00, 0x53, 0xf4, 0x80, 0x1f,
    ];
    assert_eq!(frame_message(&cmd), expected);
}

#[test]
fn unlog_frame_carries_crc_of_body() {
    let cmd = UnlogCmd::new(Port::COM1, MessageID::BestXYZ);
    let frame = frame_message(&cmd);
    assert_eq!(frame.len(), 28 + 8 + 4);
    assert_eq!(&frame[28..36], &[32, 0, 0, 0, 241, 0, 0, 0]);
    let crc = CRC32(0).calc_crc(&frame[..36]).0;
    assert_eq!(&frame[36..], &crc.to_le_bytes());
}

#[test]
fn header_roundtrip() {
    let hdr = Header::new(MessageID::Log, 32);
    let bytes = hdr.serialize();
    assert_eq!(bytes.len(), 28);
    assert_eq!(Header::parse(&bytes), Some(hdr));
    assert_eq!(Header::parse(&bytes[..27]), None);
}

#[test]
fn receiver_status_names() {
    let flags = ReceiverStatusFlags::from_bits_truncate(0x0040_0000 | 0x0008_0000);
    assert_eq!(flags.to_vec(), vec!["POSITION_SOLUTION_INVALID", "CLOCK_MODEL_INVALID"]);
    assert_eq!(ReceiverStatusFlags::empty().to_vec(), vec!["(empty)"]);
    let flags = ReceiverStatusFlags::from_bits_truncate(0x1000 | 0x0000_0001);
    assert_eq!(flags.to_vec(), vec!["ERROR_PRESENT"]);
}

#[test]
fn response_ids() {
    assert_eq!(ResponseID::from(1u32), ResponseID::OK);
    assert!(ResponseID::from(1u32).is_ok());
    assert!(!ResponseID::from(2u32).is_ok());
}

#[test]
fn message_ids() {
    assert_eq!(MessageID::from(241u16), MessageID::BestXYZ);
    assert_eq!(MessageID::from(7u16), MessageID::Unknown);
    assert_eq!(MessageID::Version.value(), 37);
}

#[test]
fn position_trigger_on_zero_interval() {
    assert_eq!(position_trigger(0.0f64.to_bits()), LogTrigger::Once);
    assert_eq!(position_trigger((-0.0f64).to_bits()), LogTrigger::Once);
    assert_eq!(position_trigger(1.0f64.to_bits()), LogTrigger::OnTime);
    assert_eq!(position_trigger(f64::MIN_POSITIVE.to_bits()), LogTrigger::OnTime);
    assert_eq!(position_trigger(f64::NAN.to_bits()), LogTrigger::OnTime);
}

#[test]
fn response_text_is_read_leniently() {
    let resp = Response::new(&[1, 0, 0, 0, b'O', b'K']).unwrap();
    assert_eq!(resp.resp_id, ResponseID::OK);
    assert_eq!(resp.resp_string, "OK");
    let resp = Response::new(&[2, 0, 0, 0, b'a', 0xFF, b'b']).unwrap();
    assert_eq!(resp.resp_string, "a\u{FFFD}b");
    assert!(Response::new(&[1, 0, 0]).is_none());
}

#[test]
fn status_event_description_drops_trailing_nuls() {
    let mut raw = vec![0u8; 44];
    raw[0] = 1;
    raw[4] = 5;
    raw[8] = 1;
    raw[12..19].copy_from_slice(b"Antenna");
    let log = RxStatusEventLog::new(ReceiverStatusFlags::empty(), 20, 2000, 1234, &raw).unwrap();
    assert_eq!(log.word, 1);
    assert_eq!(log.bit, 5);
    assert_eq!(log.event, 1);
    assert_eq!(log.description, "Antenna");
    assert_eq!(log.week, 2000);
    assert!(RxStatusEventLog::new(ReceiverStatusFlags::empty(), 20, 2000, 1234, &raw[..43]).is_none());
}

#[test]
fn reader_routes_a_framed_message() {
    let cmd = UnlogAllCmd::new(8, true);
    let frame = frame_message(&cmd);
    let reader = ReadThread::new();
    let (reader, req) = reader.step(ReadEvent::Start);
    assert_eq!(req, ReadRequest::Read { len: 3, timeout_ms: 250 });
    let (reader, req) = reader.step(ReadEvent::Data(frame[..3].to_vec()));
    assert_eq!(req, ReadRequest::Read { len: 25, timeout_ms: 60 });
    let (reader, req) = reader.step(ReadEvent::Data(frame[3..28].to_vec()));
    assert_eq!(req, ReadRequest::Read { len: 12, timeout_ms: 60 });
    let (reader, req) = reader.step(ReadEvent::Data(frame[28..].to_vec()));
    let hdr = Header::parse(&frame).unwrap();
    assert_eq!(req, ReadRequest::SendLog(hdr, frame[28..36].to_vec()));
    let (_, req) = reader.step(ReadEvent::Sent);
    assert_eq!(req, ReadRequest::Read { len: 3, timeout_ms: 250 });
}

#[test]
fn reader_drops_a_corrupted_message() {
    let cmd = UnlogAllCmd::new(8, true);
    let mut frame = frame_message(&cmd);
    frame[30] ^= 0x40;
    let reader = ReadThread::new();
    let (reader, _) = reader.step(ReadEvent::Start);
    let (reader, _) = reader.step(ReadEvent::Data(frame[..3].to_vec()));
    let (reader, _) = reader.step(ReadEvent::Data(frame[3..28].to_vec()));
    let (_, req) = reader.step(ReadEvent::Data(frame[28..].to_vec()));
    assert_eq!(req, ReadRequest::Read { len: 3, timeout_ms: 250 });
}

#[test]
fn reader_collects_abbreviated_responses() {
    let reader = ReadThread::new();
    let (reader, _) = reader.step(ReadEvent::Start);
    let (reader, req) = reader.step(ReadEvent::Data(b"<OK".to_vec()));
    assert_eq!(req, ReadRequest::Read { len: 1, timeout_ms: 250 });
    let (reader, _) = reader.step(ReadEvent::Data(b"!".to_vec()));
    let (reader, req) = reader.step(ReadEvent::Data(b"#".to_vec()));
    assert_eq!(req, ReadRequest::SendAbbrv(b"OK!".to_vec()));
    let (reader, req) = reader.step(ReadEvent::Disconnected);
    assert_eq!(req, ReadRequest::Read { len: 3, timeout_ms: 250 });
    assert!(reader.response_err);
}

fn framed(hdr: Header, body: &[u8]) -> Vec<u8> {
    let mut msg = hdr.serialize();
    msg.extend_from_slice(body);
    let crc = CRC32(0).calc_crc(&msg).0;
    msg.extend_from_slice(&crc.to_le_bytes());
    msg
}

/// Feeds `msg` to the reader in the chunks it asks for; gives the request
/// that follows the last chunk.
fn feed(reader: ReadThread, event: ReadEvent, msg: &[u8]) -> (ReadThread, ReadRequest) {
    let (mut reader, mut req) = reader.step(event);
    let mut at = 0;
    while let ReadRequest::Read { len, .. } = req {
        let (next, r) = reader.step(ReadEvent::Data(msg[at..at + len].to_vec()));
        reader = next;
        req = r;
        at += len;
    }
    (reader, req)
}

#[test]
fn reader_stops_when_both_queues_are_gone() {
    let mut response_hdr = Header::new(MessageID::Log, 4);
    response_hdr.msg_type = 0x80;
    let response = framed(response_hdr, &[1, 0, 0, 0]);
    let log = framed(Header::new(MessageID::RxStatusEvent, 2), &[7, 7]);

    let (reader, req) = feed(ReadThread::new(), ReadEvent::Start, &response);
    assert!(matches!(req, ReadRequest::SendResponse(..)));
    let (reader, req) = feed(reader, ReadEvent::Disconnected, &log);
    assert!(reader.response_err);
    assert!(matches!(req, ReadRequest::SendLog(..)));
    let (_, req) = reader.step(ReadEvent::Disconnected);
    assert_eq!(req, ReadRequest::Abandon);
}

#[test]
fn crc_of_message_with_its_crc_appended_is_zero() {
    let mut msg = b"123456789".to_vec();
    let crc = CRC32(0).calc_crc(&msg).0;
    msg.extend_from_slice(&crc.to_le_bytes());
    assert_eq!(CRC32(0).calc_crc(&msg).0, 0);
    let frame = frame_message(&UnlogAllCmd::new(8, true));
    assert_eq!(CRC32(5).calc_crc(&frame).0, 0);
}

#[test]
fn crc_ignores_leading_zero_bytes() {
    let mut msg = vec![0u8; 7];
    msg.extend_from_slice(b"123456789");
    assert_eq!(CRC32(3).calc_crc(&msg).0, 0x2DFD2D88);
    assert_eq!(CRC32(0).calc_crc(&[0u8; 4]).0, 0);
}

#[test]
fn response_id_wire_values() {
    assert_eq!(ResponseID::OK.value(), 1);
    assert_eq!(ResponseID::InvalidTrigger.value(), 14);
    assert_eq!(ResponseID::PreciseTimeAlreadyKnown.value(), 84);
    assert_eq!(ResponseID::Unknown.value(), 85);
    assert_eq!(ResponseID::from(12u32), ResponseID::Unknown);
    for t in 0u32..100 {
        let v = ResponseID::from(t);
        assert_eq!(ResponseID::from(v.value()), v);
        if v != ResponseID::Unknown {
            assert_eq!(v.value(), t);
        }
    }
}

#[test]
fn log_queue_skips_responses_with_short_bodies() {
    let mut hdr = Header::new(MessageID::Version, 2);
    hdr.msg_type = 0x80;
    assert!(log_from_message(&hdr, vec![1, 2]).is_none());
}

#[test]
fn abbreviated_responses() {
    assert!(abbreviated_response(b"OK").is_ok());
    match abbreviated_response(b"REQUESTED RATE IS INVALID") {
        Err(OEMError::CommandError { id, description }) => {
            assert_eq!(id, ResponseID::InvalidRate);
            assert_eq!(description, "REQUESTED RATE IS INVALID");
        }
        other => panic!("unexpected {:?}", other),
    }
    match abbreviated_response(b"TRIGGER ALREADY EXISTS; NOT VALID FOR THIS LOG") {
        Err(OEMError::CommandError { id, .. }) => assert_eq!(id, ResponseID::InvalidTrigger),
        other => panic!("unexpected {:?}", other),
    }
    match abbreviated_response(b"INVALID MESSAGE ID") {
        Err(OEMError::CommandError { id, description }) => {
            assert_eq!(id, ResponseID::InvalidID);
            assert_eq!(description, "INVALID MESSAGE ID, not (yet) supported");
        }
        other => panic!("unexpected {:?}", other),
    }
    match abbreviated_response(b"ok") {
        Err(OEMError::CommandError { id, description }) => {
            assert_eq!(id, ResponseID::Unknown);
            assert_eq!(description, "ok");
        }
        other => panic!("unexpected {:?}", other),
    }
    match abbreviated_response(&[b'O', 0xFF]) {
        Err(OEMError::CommandError { id, description }) => {
            assert_eq!(id, ResponseID::Unknown);
            assert_eq!(
                description,
                "Invalid UTF-8 sequence in response: invalid utf-8 sequence of 1 bytes from index 1"
            );
        }
        other => panic!("unexpected {:?}", other),
    }
}

#[test]
fn log_queue_decisions() {
    assert!(matches!(on_log_queue(LogQueueEvent::TimedOut), LogWait::Wait));
    assert!(matches!(
        on_log_queue(LogQueueEvent::Disconnected),
        LogWait::Fail(OEMError::ThreadCommError)
    ));
    let mut hdr = Header::new(MessageID::Version, 2);
    hdr.msg_type = 0x80;
    assert!(matches!(on_log_queue(LogQueueEvent::Item(hdr, vec![1, 2])), LogWait::Wait));
    let hdr = Header::new(MessageID::Version, 4);
    match on_log_queue(LogQueueEvent::Item(hdr, vec![0, 0, 0, 0])) {
        LogWait::Deliver(_) => {}
        other => panic!("unexpected {:?}", other),
    }
    let hdr = Header::new(MessageID::RxStatusEvent, 2);
    assert!(matches!(on_log_queue(LogQueueEvent::Item(hdr, vec![1, 2])), LogWait::Wait));
}

#[test]
fn ascii_commands() {
    let cmd = LogCmd::new(
        Port::COM1,
        MessageID::BestXYZ,
        LogTrigger::OnTime,
        1.0f64.to_bits(),
        0.0f64.to_bits(),
        false,
    );
    assert_eq!(
        cmd.serialize_ascii(&1.0f64.to_string(), &0.0f64.to_string()),
        b"LOG COM1 BESTXYZB ONTIME 1 0 NOHOLD ".to_vec()
    );
    let cmd = UnlogCmd::new(Port::ThisPort, MessageID::Version);
    assert_eq!(cmd.serialize_ascii(), b"UNLOG THISPORT VERSION ".to_vec());
    let cmd = UnlogCmd::new(Port::COM1, MessageID::Log);
    assert_eq!(cmd.serialize_ascii(), b"UNLOG COM1 UNKNOWN ".to_vec());
}
