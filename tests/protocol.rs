use sntp::message::{NTPMessage, SntpError, CLIENT_HEADER, MESSAGE_LEN};
use sntp::timestamp::{convert_endian, to_utc, UtcTime, NTP_EPOCH_UNIX_SECONDS};

fn sample_message() -> NTPMessage {
    NTPMessage {
        header: 0b00_100_100,
        stratum: 1,
        poll_interval: 6,
        precision: -20,
        root_delay: -2,
        root_dispersion: 0x0000_0123,
        reference_identifier: 0x4e49_5354,
        reference_timestamp: 0xe93c_7eff_1234_5678,
        originate_timestamp: 0,
        receive_timestamp: 0xe93c_7f00_8000_0000,
        transmit_timestamp: 0xffff_ffff_ffff_ffff,
    }
}

#[test]
fn client_request_has_client_header_and_zero_fields() {
    let m = NTPMessage::default_client_message();
    assert_eq!(m.header, 0b00100011);
    assert_eq!(m.header, CLIENT_HEADER);
    assert_eq!(m.stratum, 0);
    assert_eq!(m.poll_interval, 0);
    assert_eq!(m.precision, 0);
    assert_eq!(m.root_delay, 0);
    assert_eq!(m.root_dispersion, 0);
    assert_eq!(m.reference_identifier, 0);
    assert_eq!(m.reference_timestamp, 0);
    assert_eq!(m.originate_timestamp, 0);
    assert_eq!(m.receive_timestamp, 0);
    assert_eq!(m.transmit_timestamp, 0);
}

#[test]
fn client_request_encodes_to_header_then_zeros() {
    let bytes = NTPMessage::default_client_message().encode();
    assert_eq!(bytes.len(), 48);
    assert_eq!(bytes[0], 0x23);
    assert!(bytes[1..].iter().all(|b| *b == 0));
}

#[test]
fn encode_is_48_bytes_big_endian() {
    let bytes = sample_message().encode();
    assert_eq!(bytes.len(), MESSAGE_LEN);
    assert_eq!(&bytes[0..4], &[0x24, 1, 6, 0xec]);
    assert_eq!(&bytes[4..8], &[0xff, 0xff, 0xff, 0xfe]);
    assert_eq!(&bytes[8..12], &[0x00, 0x00, 0x01, 0x23]);
    assert_eq!(&bytes[12..16], b"NIST");
    assert_eq!(&bytes[16..24], &[0xe9, 0x3c, 0x7e, 0xff, 0x12, 0x34, 0x56, 0x78]);
    assert_eq!(&bytes[24..32], &[0; 8]);
    assert_eq!(&bytes[32..40], &[0xe9, 0x3c, 0x7f, 0x00, 0x80, 0, 0, 0]);
    assert_eq!(&bytes[40..48], &[0xff; 8]);
}

#[test]
fn decode_of_encode_gives_message_back() {
    let m = sample_message();
    assert_eq!(NTPMessage::decode(&m.encode()), Ok(m));
    let c = NTPMessage::default_client_message();
    assert_eq!(NTPMessage::decode(&c.encode()), Ok(c));
}

#[test]
fn decode_reads_each_field() {
    let mut bytes = vec![0u8; 48];
    bytes[0] = 0x24;
    bytes[1] = 2;
    bytes[3] = 0xfa;
    bytes[4..8].copy_from_slice(&[0x80, 0, 0, 1]);
    bytes[32..40].copy_from_slice(&[1, 2, 3, 4, 5, 6, 7, 8]);
    let m = NTPMessage::decode(&bytes).unwrap();
    assert_eq!(m.header, 0x24);
    assert_eq!(m.stratum, 2);
    assert_eq!(m.precision, -6);
    assert_eq!(m.root_delay, i32::MIN + 1);
    assert_eq!(m.receive_timestamp, 0x0102_0304_0506_0708);
    assert_eq!(m.transmit_timestamp, 0);
}

#[test]
fn decode_rejects_wrong_lengths() {
    for len in [0usize, 1, 47, 49, 1024] {
        let bytes = vec![0u8; len];
        assert_eq!(NTPMessage::decode(&bytes), Err(SntpError::MalformedMessage));
    }
    assert!(NTPMessage::decode(&[0u8; 48]).is_ok());
}

#[test]
fn convert_endian_reverses_bytes() {
    assert_eq!(convert_endian(0x1234_5678), 0x7856_3412);
    assert_eq!(convert_endian(0x007f_3ce9), 0xe93c_7f00);
    assert_eq!(convert_endian(0), 0);
    assert_eq!(convert_endian(u32::MAX), u32::MAX);
}

#[test]
fn convert_endian_twice_is_identity() {
    for x in [0u32, 1, 0xff, 0x0102_0304, 0xdead_beef, u32::MAX, 0x8000_0000] {
        assert_eq!(convert_endian(convert_endian(x)), x);
    }
}

#[test]
fn ntp_epoch_matches_chrono() {
    let start = chrono::DateTime::parse_from_rfc3339("1900-01-01T00:00:00Z").unwrap();
    assert_eq!(start.timestamp(), NTP_EPOCH_UNIX_SECONDS);
}

#[test]
fn to_utc_start_of_2024() {
    // The low half holds the bytes e9 3c 7f 00 as a little-endian host reads them.
    let raw: u64 = 0xabcd_ef01_007f_3ce9;
    let t = to_utc(raw);
    assert_eq!(t.unix_seconds(), 1_704_067_200);
    assert_eq!(t.to_string(), "2024-01-01 00:00:00 UTC");
}

#[test]
fn to_utc_zero_seconds_is_ntp_epoch() {
    let t = to_utc(0xffff_ffff_0000_0000);
    assert_eq!(t.unix_seconds(), -2_208_988_800);
    assert_eq!(t.to_string(), "1900-01-01 00:00:00 UTC");
    assert_eq!(UtcTime::from_ntp_seconds(0), t);
}

#[test]
fn last_second_of_first_era() {
    let t = UtcTime::from_ntp_seconds(u32::MAX);
    assert_eq!(t.to_string(), "2036-02-07 06:28:15 UTC");
}

#[test]
fn exchange_with_fake_transport() {
    let request = NTPMessage::default_client_message().encode();
    assert_eq!(request.len(), 48);
    assert_eq!(request[0], 0x23);

    // A server reply with receive timestamp 3913056000.5 seconds after 1900.
    let mut reply = vec![0u8; 48];
    reply[0] = 0x24;
    reply[1] = 1;
    reply[32..40].copy_from_slice(&[0xe9, 0x3c, 0x7f, 0x00, 0x80, 0, 0, 0]);
    let msg = NTPMessage::decode(&reply).unwrap();
    assert_eq!(msg.stratum, 1);
    assert_eq!(msg.receive_time().to_string(), "2024-01-01 00:00:00 UTC");

    // The same field read in host order, as a raw in-memory reinterpretation sees it.
    let raw = u64::from_le_bytes(reply[32..40].try_into().unwrap());
    assert_eq!(to_utc(raw), msg.receive_time());
}
