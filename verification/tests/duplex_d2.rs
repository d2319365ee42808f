use kubos_apis::duplex_d2::file::File;
use kubos_apis::duplex_d2::geo::GeoFields;
use kubos_apis::duplex_d2::link::{LineRead, ReplyCollector};
use kubos_apis::duplex_d2::{parse_ack_or_nak, parse_u32};
use kubos_apis::radio::{ErrorKind, ParseError, RadioError, ReadBuffer, ReadStep};

#[test]
fn file_it_parses() {
    assert_eq!(
        Ok((
            &b"extra"[..],
            File {
                name: String::from("test.txt"),
                body: b"Hello World\n".to_vec(),
            }
        )),
        File::parse(b"GU008000012test.txtHello World\n\x42\x24extra")
    );
}

#[test]
fn it_encodes() {
    let file = File {
        name: String::from("test.txt"),
        body: b"Hello World\n".to_vec(),
    };
    let expected: &[u8] = b"GU008000012test.txtHello World\n\x15\xac";
    let actual: &[u8] = &file.encode();
    assert_eq!(expected, actual);
}

#[test]
fn it_roundtrips() {
    let file = File::new("test.txt", b"Hello World\n");
    let encoded = file.encode();
    let expected = Ok((&b""[..], file));
    let actual = File::parse(&encoded);
    assert_eq!(expected, actual);
}

#[test]
fn it_parses_u32() {
    assert_eq!(
        Ok((&b"extra"[..], 0x12345678)),
        parse_u32(b"GU\x12\x34\x56\x78extra")
    );
}

#[test]
fn it_parses_u32_and_skips_garbage() {
    assert_eq!(
        Ok((&b"extra"[..], 0x12345678)),
        parse_u32(b"garbageGU\x12\x34\x56\x78extra")
    );
}

#[test]
fn it_parses_ack() {
    assert_eq!(Ok((&b"extra"[..], true)), parse_ack_or_nak(b"GU\x06extra"));
}

#[test]
fn it_parses_nak() {
    assert_eq!(Ok((&b"extra"[..], false)), parse_ack_or_nak(b"GU\x0fextra"));
}

#[test]
fn test_get_uploaded_file_count() {
    let mut buffer = ReadBuffer::new();
    buffer.extend(b"GU\x00\x00\x00\x37");
    let copy = buffer.contents().to_vec();
    let outcome = parse_u32(&copy).map(|(rest, v)| (rest.to_vec(), v));
    match buffer.settle(outcome) {
        ReadStep::Done(Ok(v)) => assert_eq!(55, v),
        other => panic!("unexpected {:?}", other),
    }
    assert!(buffer.contents().is_empty());
}

#[test]
fn ack_parser_refuses_other_codes() {
    assert_eq!(
        Err(ParseError::Error(ErrorKind::OneOf)),
        parse_ack_or_nak(b"GU\x07extra")
    );
    assert_eq!(Err(ParseError::Incomplete), parse_ack_or_nak(b"GU"));
    assert_eq!(Err(ParseError::Incomplete), parse_ack_or_nak(b"no marker"));
}

#[test]
fn u32_parser_needs_four_bytes() {
    assert_eq!(Err(ParseError::Incomplete), parse_u32(b"GU\x12\x34\x56"));
    assert_eq!(Err(ParseError::Incomplete), parse_u32(b"G"));
}

#[test]
fn file_parse_errors() {
    // Length fields that are not numbers
    assert_eq!(
        Err(ParseError::Error(ErrorKind::MapRes)),
        File::parse(b"GU0x8000012test.txtHello World\n\x42\x24")
    );
    assert_eq!(
        Err(ParseError::Error(ErrorKind::MapRes)),
        File::parse(b"GU008-00012test.txtHello World\n\x42\x24")
    );
    // A name that is not UTF-8
    assert_eq!(
        Err(ParseError::Error(ErrorKind::MapRes)),
        File::parse(b"GU002000001\xff\xfeA\x00\x00")
    );
    // Input that ends early
    assert_eq!(Err(ParseError::Incomplete), File::parse(b"GU00"));
    assert_eq!(Err(ParseError::Incomplete), File::parse(b"GU008000012test.txt"));
    assert_eq!(
        Err(ParseError::Incomplete),
        File::parse(b"GU008000012test.txtHello World\n\x42")
    );
    assert_eq!(Err(ParseError::Incomplete), File::parse(b"no marker here"));
}

#[test]
fn file_length_fields_take_a_plus_sign() {
    assert_eq!(
        Ok((
            &b""[..],
            File {
                name: String::from("ab"),
                body: b"xyz".to_vec(),
            }
        )),
        File::parse(b"GU+02+00003abxyz\x00\x00")
    );
}

#[test]
fn file_encoding_pads_lengths() {
    let file = File::new("a", b"");
    let encoded = file.encode();
    assert_eq!(&encoded[..12], b"GU001000000a");
    assert_eq!(encoded.len(), 14);
}

#[test]
fn read_buffer_keeps_bytes_until_complete() {
    let mut buffer = ReadBuffer::new();
    buffer.extend(b"xxGU\x00\x00");
    let copy = buffer.contents().to_vec();
    let outcome = parse_u32(&copy).map(|(rest, v)| (rest.to_vec(), v));
    assert!(matches!(buffer.settle(outcome), ReadStep::More));
    assert_eq!(buffer.contents(), b"xxGU\x00\x00");
    buffer.extend(b"\x01\x02GU\x06");
    let copy = buffer.contents().to_vec();
    let outcome = parse_u32(&copy).map(|(rest, v)| (rest.to_vec(), v));
    match buffer.settle(outcome) {
        ReadStep::Done(Ok(v)) => assert_eq!(v, 0x0102),
        other => panic!("unexpected {:?}", other),
    }
    assert_eq!(buffer.contents(), b"GU\x06");
}

#[test]
fn read_buffer_reports_parse_errors() {
    let mut buffer = ReadBuffer::new();
    buffer.extend(b"GU\x01");
    let copy = buffer.contents().to_vec();
    let outcome = parse_ack_or_nak(&copy).map(|(rest, v)| (rest.to_vec(), v));
    match buffer.settle(outcome) {
        ReadStep::Done(Err(RadioError::ParseError { message })) => assert_eq!(message, "OneOf"),
        other => panic!("unexpected {:?}", other),
    }
    assert_eq!(buffer.contents(), b"GU\x01");
}

#[test]
fn radio_error_texts() {
    let e = RadioError::ParseError { message: String::from("Incomplete data") };
    assert_eq!(e.to_string(), "Parse error: Incomplete data");
    let e = RadioError::HardwareError { message: String::from("no port") };
    assert_eq!(e.to_string(), "Hardware error: no port");
}

const GEO_RECORD: &[u8] = b"GU\nN: 040 28 57\nW: 085 29 38\nTIME: 02 01 2018 13:10:42\nERR: < 5 km\n\nOK\n                     extra";

fn number(text: &[u8]) -> f32 {
    std::str::from_utf8(text).unwrap().parse().unwrap()
}

#[test]
fn geo_record_it_parses() {
    let (rest, fields) = GeoFields::parse(GEO_RECORD).unwrap();
    assert_eq!(rest, &b"extra"[..]);
    assert_eq!(fields.north, [b"040".to_vec(), b"28".to_vec(), b"57".to_vec()]);
    assert_eq!(fields.west, [b"085".to_vec(), b"29".to_vec(), b"38".to_vec()]);
    assert_eq!(fields.time, 1_514_898_642);
    assert_eq!(fields.max_error, b"5".to_vec());
    assert!(fields.error_in_km());
    let lat = number(&fields.north[0]) + number(&fields.north[1]) / 60.0 + number(&fields.north[2]) / 3600.0;
    let lon = -(number(&fields.west[0]) + number(&fields.west[1]) / 60.0 + number(&fields.west[2]) / 3600.0);
    assert_eq!(lat, 40.482_502);
    assert_eq!(lon, -85.493_89);
    assert_eq!(number(&fields.max_error) as u32 * 1000, 5000);
}

#[test]
fn geo_record_incomplete_and_errors() {
    for n in 0..GEO_RECORD.len() - 5 {
        assert_eq!(GeoFields::parse(&GEO_RECORD[..n]).err(), Some(ParseError::Incomplete), "at {}", n);
    }
    let bad_date = b"GU\nN: 040 28 57\nW: 085 29 38\nTIME: 32 01 2018 13:10:42\nERR: < 5 km\n\nOK\n x";
    assert_eq!(GeoFields::parse(bad_date).err(), Some(ParseError::Error(ErrorKind::Tag)));
    let no_space = b"GU\nN:040 28 57\nW: 085 29 38\nTIME: 02 01 2018 13:10:42\nERR: < 5 km\n\nOK\n x";
    assert_eq!(GeoFields::parse(no_space).err(), Some(ParseError::Error(ErrorKind::MultiSpace)));
    let no_number = b"GU\nN: x 28 57\nW: 085 29 38\nTIME: 02 01 2018 13:10:42\nERR: < 5 km\n\nOK\n x";
    assert_eq!(GeoFields::parse(no_number).err(), Some(ParseError::Error(ErrorKind::Alt)));
    let not_ok = b"GU\nN: 040 28 57\nW: 085 29 38\nTIME: 02 01 2018 13:10:42\nERR: < 5 m\n\nNO\n x";
    assert_eq!(GeoFields::parse(not_ok).err(), Some(ParseError::Error(ErrorKind::Tag)));
}

#[test]
fn geo_record_numbers() {
    let rec = b"GU N: +1.5e2 .25 3. W: -4E-1 5 6 TIME: 01 01 1970 00:00:10\nERR: < 300 m\nOK x";
    let (rest, fields) = GeoFields::parse(rec).unwrap();
    assert_eq!(rest, &b"x"[..]);
    assert_eq!(fields.north, [b"+1.5e2".to_vec(), b".25".to_vec(), b"3.".to_vec()]);
    assert_eq!(fields.west, [b"-4E-1".to_vec(), b"5".to_vec(), b"6".to_vec()]);
    assert_eq!(fields.time, 10);
    assert_eq!(fields.max_error, b"300".to_vec());
    assert_eq!(fields.unit, b"m".to_vec());
    assert!(!fields.error_in_km());
}

#[test]
fn reply_ends_after_six_empty_reads() {
    let mut reply = ReplyCollector::new();
    assert!(reply.on_read(LineRead::Byte(b'G')));
    assert!(reply.on_read(LineRead::Nothing));
    assert!(reply.on_read(LineRead::Byte(b'U')));
    for _ in 0..4 {
        assert!(reply.on_read(LineRead::Nothing));
    }
    assert!(!reply.on_read(LineRead::Nothing));
    assert_eq!(reply.into_bytes(), b"GU".to_vec());
}

#[test]
fn reply_ends_on_a_failed_read() {
    let mut reply = ReplyCollector::new();
    assert!(reply.on_read(LineRead::Byte(1)));
    assert!(!reply.on_read(LineRead::Failed));
    assert_eq!(reply.into_bytes(), vec![1]);
}
