use kubos_apis::simplex_s3::{BeaconSender, BeaconStep, SimplexError, ACK, NAK};

/// Runs the beacon logic against a radio that answers with `replies`, one
/// per transmission; gives the bytes transmitted and the outcome.
fn run(msg: &[u8], replies: &[[u8; 3]]) -> (Vec<Vec<u8>>, Result<(), SimplexError>) {
    let mut sent = Vec::new();
    let mut sender = match BeaconSender::new(msg) {
        Ok(s) => s,
        Err(e) => return (sent, Err(e)),
    };
    for reply in replies {
        sent.push(sender.packet().to_vec());
        match sender.on_reply(reply) {
            BeaconStep::Sent => return (sent, Ok(())),
            BeaconStep::Retry => continue,
            BeaconStep::Failed => return (sent, Err(SimplexError::SendFailed)),
        }
    }
    panic!("the radio ran out of replies");
}

#[test]
fn test_ack() {
    let (sent, result) = run(&[1, 2, 3], &[ACK]);
    assert_eq!(sent, vec![vec![0x50, 0x50, 0x50, 0x01, 0x02, 0x03]]);
    assert!(result.is_ok());
}

#[test]
fn test_nak() {
    let (sent, result) = run(&[1, 2, 3], &[NAK, NAK, NAK, NAK, NAK]);
    assert_eq!(sent.len(), 5);
    assert_eq!(result.unwrap_err().to_string(), "Failed to send message");
}

#[test]
fn test_nak_ack() {
    let (sent, result) = run(&[1, 2, 3], &[NAK, ACK]);
    assert_eq!(sent.len(), 2);
    assert!(result.is_ok());
}

#[test]
fn beacon_too_large() {
    let msg = [0u8; 36];
    let (sent, result) = run(&msg, &[ACK]);
    assert!(sent.is_empty());
    assert_eq!(result.unwrap_err().to_string(), "Packet too large");
    let msg = [0u8; 35];
    let (_, result) = run(&msg, &[ACK]);
    assert!(result.is_ok());
}

#[test]
fn unknown_reply_retries() {
    let (sent, result) = run(&[9], &[[0, 0, 0], [0xAA, 0x05, 0x01], ACK]);
    assert_eq!(sent.len(), 3);
    assert!(result.is_ok());
    let mut sender = BeaconSender::new(&[9]).unwrap();
    assert_eq!(sender.on_reply(&[0xAA, 0x05]), BeaconStep::Retry);
    assert_eq!(sender.on_reply(&[0xAA, 0x05, 0x00, 0x00]), BeaconStep::Retry);
    assert_eq!(sender.on_reply(&ACK), BeaconStep::Sent);
}
