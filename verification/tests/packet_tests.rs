use rsntp::{
    AddressFamily, LeapIndicator, Mode, Packet, ProtocolError, ReferenceIdentifier, SntpTimestamp,
};
use std::time::{Duration, SystemTime};

#[test]
fn zero_timestamp_converts_to_zero_raw() {
    assert_eq!(
        SntpTimestamp::zero().to_bytes(),
        [0x00, 0x00, 0x00, 0x00, 0x00, 0x00, 0x00, 0x00]
    );
}

#[test]
fn zero_timestamp_is_zero() {
    assert!(SntpTimestamp::zero().is_zero());
}

#[test]
fn timestamp_created_from_bytes_converts_to_the_same_raw() {
    let before_2036 = [0xc5, 0x02, 0x03, 0x4c, 0x36, 0xbb, 0xa9, 0x8e];
    let after_2036 = [0x08, 0x1D, 0xD1, 0x80, 0x80, 0x00, 0x00, 0x00];

    assert_eq!(
        SntpTimestamp::from_bytes(before_2036).to_bytes(),
        before_2036
    );
    assert_eq!(SntpTimestamp::from_bytes(after_2036).to_bytes(), after_2036);
}

#[test]
fn timestamp_from_systemtime_works_correctly() {
    // 2004-09-27, 03:11:08
    let before_2036 = SntpTimestamp::from_systemtime(
        SystemTime::UNIX_EPOCH + Duration::new(1096254668, 213_800_999),
    );
    // 2040-06-01 08:00:00
    let after_2036 = SntpTimestamp::from_systemtime(
        SystemTime::UNIX_EPOCH + Duration::new(2222150400, 500_000_000),
    );

    assert_eq!(
        before_2036.to_bytes(),
        [0xc5, 0x02, 0x03, 0x4c, 0x36, 0xbb, 0xa9, 0x8a]
    );

    assert_eq!(
        after_2036.to_bytes(),
        [0x08, 0x1D, 0xD1, 0x80, 0x80, 0x00, 0x00, 0x00]
    );
}

#[test]
fn subtracting_timestamps_works_correctly() {
    let now = SystemTime::now();
    let past = now - Duration::from_secs(3600);
    let future = now + Duration::from_secs(3600);

    let now_sntp = SntpTimestamp::from_systemtime(now);
    let past_sntp = SntpTimestamp::from_systemtime(past);
    let future_sntp = SntpTimestamp::from_systemtime(future);

    let secs = |d: rsntp::SntpDuration| d.as_fixed_point() as f64 / 4294967296.0;

    assert_eq!(secs(future_sntp.sub(now_sntp)), 3600.0);
    assert_eq!(secs(future_sntp.sub(past_sntp)), 7200.0);

    assert_eq!(secs(now_sntp.sub(future_sntp)), -3600.0);
    assert_eq!(secs(past_sntp.sub(future_sntp)), -7200.0);
}

#[test]
fn subtracting_timestamps_across_the_era_boundary_is_monotonic() {
    // Largest instant of the first era and smallest of the second: their
    // difference must come out as one small positive step, not a wraparound.
    let last_of_first_era = SntpTimestamp::from_bytes([0xff; 8]);
    let first_of_second_era = SntpTimestamp::from_bytes([0x00, 0x00, 0x00, 0x00, 0x00, 0x00, 0x00, 0x01]);

    assert_eq!(
        first_of_second_era.sub(last_of_first_era).as_fixed_point(),
        2
    );
    assert_eq!(
        last_of_first_era.sub(first_of_second_era).as_fixed_point(),
        -2
    );
}

#[test]
fn subtraction_is_antisymmetric() {
    let a = SntpTimestamp::from_bytes([0xc5, 0x02, 0x03, 0x4c, 0x36, 0xbb, 0xa9, 0x8e]);
    let b = SntpTimestamp::from_bytes([0x08, 0x1D, 0xD1, 0x80, 0x80, 0x00, 0x00, 0x00]);

    assert_eq!(a.sub(b).as_fixed_point(), -b.sub(a).as_fixed_point());
    assert_eq!(a.sub(a).as_fixed_point(), 0);
}

#[test]
fn decoding_a_packet_works() {
    let raw = [
        0x23, 0x02, 0x0a, 0xec, 0x00, 0x00, 0x02, 0x86, 0x00, 0x00, 0x0b, 0x33, 0xcc, 0x7b, 0x02,
        0x48, 0xc5, 0x02, 0x02, 0xac, 0x41, 0x6e, 0x15, 0x87, 0xc5, 0x02, 0x04, 0xec, 0xee, 0xd3,
        0x3c, 0x52, 0xc5, 0x02, 0x04, 0xeb, 0xd9, 0xd8, 0xd7, 0x9d, 0xc5, 0x02, 0x04, 0xeb, 0xd9,
        0xdc, 0xb5, 0x78,
    ];

    let packet = Packet::from_bytes(&raw, AddressFamily::V4).unwrap();

    assert_eq!(packet.li, LeapIndicator::NoWarning);
    assert_eq!(packet.mode, Mode::Client);
    assert_eq!(packet.stratum, 2);
    assert_eq!(
        packet.reference_identifier,
        ReferenceIdentifier::IpAddress([0xcc, 0x7b, 0x02, 0x48])
    );

    assert_eq!(
        packet.reference_timestamp,
        SntpTimestamp::from_bytes([0xc5, 0x02, 0x02, 0xac, 0x41, 0x6e, 0x15, 0x87])
    );
    assert_eq!(
        packet.originate_timestamp,
        SntpTimestamp::from_bytes([0xc5, 0x02, 0x04, 0xec, 0xee, 0xd3, 0x3c, 0x52])
    );
    assert_eq!(
        packet.receive_timestamp,
        SntpTimestamp::from_bytes([0xc5, 0x02, 0x04, 0xeb, 0xd9, 0xd8, 0xd7, 0x9d])
    );
    assert_eq!(
        packet.transmit_timestamp,
        SntpTimestamp::from_bytes([0xc5, 0x02, 0x04, 0xeb, 0xd9, 0xdc, 0xb5, 0x78])
    );
}

#[test]
fn decoding_a_packet_with_wrong_version_fails() {
    let raw = [
        0x1a, 0x02, 0x0a, 0xec, 0x00, 0x00, 0x02, 0x86, 0x00, 0x00, 0x0b, 0x33, 0xcc, 0x7b, 0x02,
        0x48, 0xc5, 0x02, 0x02, 0xac, 0x41, 0x6e, 0x15, 0x87, 0xc5, 0x02, 0x04, 0xec, 0xee, 0xd3,
        0x3c, 0x52, 0xc5, 0x02, 0x04, 0xeb, 0xd9, 0xd8, 0xd7, 0x9d, 0xc5, 0x02, 0x04, 0xeb, 0xd9,
        0xdc, 0xb5, 0x78,
    ];

    assert_eq!(
        Packet::from_bytes(&raw, AddressFamily::V4).unwrap_err(),
        ProtocolError::InvalidPacketVersion
    );
}

#[test]
fn decoding_a_short_packet_fails() {
    let raw = [
        0x23, 0x02, 0x0a, 0xec, 0x00, 0x00, 0x02, 0x86, 0x00, 0x00, 0x0b, 0x33, 0xcc, 0x7b, 0x02,
        0x48,
    ];

    assert_eq!(
        Packet::from_bytes(&raw, AddressFamily::V4).unwrap_err(),
        ProtocolError::PacketIsTooShort
    );
}

#[test]
fn decoding_a_packet_with_illegal_mode_fails() {
    let raw = [
        0x20, 0x02, 0x0a, 0xec, 0x00, 0x00, 0x02, 0x86, 0x00, 0x00, 0x0b, 0x33, 0xcc, 0x7b, 0x02,
        0x48, 0xc5, 0x02, 0x02, 0xac, 0x41, 0x6e, 0x15, 0x87, 0xc5, 0x02, 0x04, 0xec, 0xee, 0xd3,
        0x3c, 0x52, 0xc5, 0x02, 0x04, 0xeb, 0xd9, 0xd8, 0xd7, 0x9d, 0xc5, 0x02, 0x04, 0xeb, 0xd9,
        0xdc, 0xb5, 0x78,
    ];

    assert_eq!(
        Packet::from_bytes(&raw, AddressFamily::V4).unwrap_err(),
        ProtocolError::InvalidMode
    );
}

#[test]
fn decoding_a_packet_with_wrong_version_fails_even_with_valid_rest() {
    // Same buffer as the happy path, with only the version bits changed to 3.
    let raw = [
        0x1b, 0x01, 0x0a, 0xec, 0x00, 0x00, 0x02, 0x86, 0x00, 0x00, 0x0b, 0x33, 0x4c, 0x4f, 0x43,
        0x4c, 0xc5, 0x02, 0x02, 0xac, 0x41, 0x6e, 0x15, 0x87, 0xc5, 0x02, 0x04, 0xec, 0xee, 0xd3,
        0x3c, 0x52, 0xc5, 0x02, 0x04, 0xeb, 0xd9, 0xd8, 0xd7, 0x9d, 0xc5, 0x02, 0x04, 0xeb, 0xd9,
        0xdc, 0xb5, 0x78,
    ];

    assert_eq!(
        Packet::from_bytes(&raw, AddressFamily::V6).unwrap_err(),
        ProtocolError::InvalidPacketVersion
    );
}

#[test]
fn decoding_a_non_ascii_reference_identifier_fails_for_low_strata() {
    let mut raw = [0u8; 48];
    raw[0] = 0x24; // version 4, server mode
    raw[1] = 1; // primary server: reference identifier must be ASCII
    raw[12] = 0x80;

    assert_eq!(
        Packet::from_bytes(&raw, AddressFamily::V4).unwrap_err(),
        ProtocolError::InvalidReferenceIdentifier
    );
}

#[test]
fn encoding_a_packet_works() {
    let packet = Packet {
        li: LeapIndicator::NoWarning,
        mode: Mode::Client,
        stratum: 0,
        reference_identifier: ReferenceIdentifier::Empty,
        reference_timestamp: SntpTimestamp::from_bytes([
            0xc5, 0x02, 0x02, 0xac, 0x41, 0x6e, 0x15, 0x87,
        ]),
        originate_timestamp: SntpTimestamp::from_bytes([
            0xc5, 0x02, 0x04, 0xec, 0xee, 0xd3, 0x3c, 0x52,
        ]),
        receive_timestamp: SntpTimestamp::from_bytes([
            0xc5, 0x02, 0x04, 0xeb, 0xd9, 0xd8, 0xd7, 0x9d,
        ]),
        transmit_timestamp: SntpTimestamp::from_bytes([
            0xc5, 0x02, 0x04, 0xeb, 0xd9, 0xdc, 0xb5, 0x78,
        ]),
    };

    assert_eq!(
        packet.to_bytes().to_vec(),
        vec![
            0x23, 0x00, 0x00, 0x00, 0x00, 0x00, 0x00, 0x00, 0x00, 0x00, 0x00, 0x00, 0x00, 0x00,
            0x00, 0x00, 0xc5, 0x02, 0x02, 0xac, 0x41, 0x6e, 0x15, 0x87, 0xc5, 0x02, 0x04, 0xec,
            0xee, 0xd3, 0x3c, 0x52, 0xc5, 0x02, 0x04, 0xeb, 0xd9, 0xd8, 0xd7, 0x9d, 0xc5, 0x02,
            0x04, 0xeb, 0xd9, 0xdc, 0xb5, 0x78
        ]
    );
}

#[test]
fn decoding_ascii_reference_identifier_works() {
    let raw = [
        0x23, 0x01, 0x0a, 0xec, 0x00, 0x00, 0x02, 0x86, 0x00, 0x00, 0x0b, 0x33, 0x4c, 0x4f, 0x43,
        0x4c, 0xc5, 0x02, 0x02, 0xac, 0x41, 0x6e, 0x15, 0x87, 0xc5, 0x02, 0x04, 0xec, 0xee, 0xd3,
        0x3c, 0x52, 0xc5, 0x02, 0x04, 0xeb, 0xd9, 0xd8, 0xd7, 0x9d, 0xc5, 0x02, 0x04, 0xeb, 0xd9,
        0xdc, 0xb5, 0x78,
    ];

    let packet = Packet::from_bytes(&raw, AddressFamily::V4).unwrap();

    assert_eq!(
        packet.reference_identifier,
        ReferenceIdentifier::ASCII("LOCL".into())
    );
}

#[test]
fn decoding_short_ascii_reference_identifier_works() {
    let raw = [
        0x23, 0x01, 0x0a, 0xec, 0x00, 0x00, 0x02, 0x86, 0x00, 0x00, 0x0b, 0x33, 0x47, 0x50, 0x53,
        0x00, 0xc5, 0x02, 0x02, 0xac, 0x41, 0x6e, 0x15, 0x87, 0xc5, 0x02, 0x04, 0xec, 0xee, 0xd3,
        0x3c, 0x52, 0xc5, 0x02, 0x04, 0xeb, 0xd9, 0xd8, 0xd7, 0x9d, 0xc5, 0x02, 0x04, 0xeb, 0xd9,
        0xdc, 0xb5, 0x78,
    ];

    let packet = Packet::from_bytes(&raw, AddressFamily::V4).unwrap();

    assert_eq!(
        packet.reference_identifier,
        ReferenceIdentifier::ASCII("GPS".into())
    );
}

#[test]
fn decoding_zero_stratum_reference_identifier_is_ascii() {
    let raw = [
        0x24, 0x00, 0x0a, 0xec, 0x00, 0x00, 0x02, 0x86, 0x00, 0x00, 0x0b, 0x33, 0x52, 0x41, 0x54,
        0x45, 0xc5, 0x02, 0x02, 0xac, 0x41, 0x6e, 0x15, 0x87, 0xc5, 0x02, 0x04, 0xec, 0xee, 0xd3,
        0x3c, 0x52, 0xc5, 0x02, 0x04, 0xeb, 0xd9, 0xd8, 0xd7, 0x9d, 0xc5, 0x02, 0x04, 0xeb, 0xd9,
        0xdc, 0xb5, 0x78,
    ];

    let packet = Packet::from_bytes(&raw, AddressFamily::V6).unwrap();

    assert_eq!(
        packet.reference_identifier,
        ReferenceIdentifier::ASCII("RATE".into())
    );
}

#[test]
fn decoding_ipv6_hash_reference_identifier_works() {
    let raw = [
        0x23, 0x02, 0x0a, 0xec, 0x00, 0x00, 0x02, 0x86, 0x00, 0x00, 0x0b, 0x33, 0x01, 0x02, 0x03,
        0x04, 0xc5, 0x02, 0x02, 0xac, 0x41, 0x6e, 0x15, 0x87, 0xc5, 0x02, 0x04, 0xec, 0xee, 0xd3,
        0x3c, 0x52, 0xc5, 0x02, 0x04, 0xeb, 0xd9, 0xd8, 0xd7, 0x9d, 0xc5, 0x02, 0x04, 0xeb, 0xd9,
        0xdc, 0xb5, 0x78,
    ];

    let packet = Packet::from_bytes(&raw, AddressFamily::V6).unwrap();

    assert_eq!(
        packet.reference_identifier,
        ReferenceIdentifier::MD5Hash(0x01020304)
    );
}

#[test]
fn leap_indicator_wire_mapping_swaps_one_and_two() {
    assert_eq!(
        LeapIndicator::from_u8(0).unwrap(),
        LeapIndicator::NoWarning
    );
    assert_eq!(
        LeapIndicator::from_u8(1).unwrap(),
        LeapIndicator::LastMinuteHas59Seconds
    );
    assert_eq!(
        LeapIndicator::from_u8(2).unwrap(),
        LeapIndicator::LastMinuteHas61Seconds
    );
    assert_eq!(
        LeapIndicator::from_u8(3).unwrap(),
        LeapIndicator::AlarmCondition
    );
    assert_eq!(
        LeapIndicator::from_u8(4).unwrap_err(),
        ProtocolError::InvalidLeapIndicator
    );

    assert_eq!(LeapIndicator::LastMinuteHas59Seconds.to_u8(), 1);
    assert_eq!(LeapIndicator::LastMinuteHas61Seconds.to_u8(), 2);
}

#[test]
fn mode_wire_mapping_accepts_only_three_to_five() {
    assert_eq!(Mode::from_u8(3).unwrap(), Mode::Client);
    assert_eq!(Mode::from_u8(4).unwrap(), Mode::Server);
    assert_eq!(Mode::from_u8(5).unwrap(), Mode::Broadcast);
    assert_eq!(Mode::from_u8(0).unwrap_err(), ProtocolError::InvalidMode);
    assert_eq!(Mode::from_u8(6).unwrap_err(), ProtocolError::InvalidMode);
    assert_eq!(Mode::Server.to_u8(), 4);
}

#[test]
fn reference_identifier_renders_as_text() {
    assert_eq!(ReferenceIdentifier::Empty.display_string(), "");
    assert_eq!(
        ReferenceIdentifier::ASCII("LOCL".into()).display_string(),
        "LOCL"
    );
    assert_eq!(
        ReferenceIdentifier::IpAddress([204, 123, 2, 72]).display_string(),
        "204.123.2.72"
    );
    assert_eq!(
        ReferenceIdentifier::IpAddress([0, 10, 255, 1]).display_string(),
        "0.10.255.1"
    );
    assert_eq!(
        ReferenceIdentifier::MD5Hash(0x01020304).display_string(),
        "0x1020304"
    );
    assert_eq!(
        ReferenceIdentifier::MD5Hash(0xABCDEF12).display_string(),
        "0xABCDEF12"
    );
    assert_eq!(ReferenceIdentifier::MD5Hash(0).display_string(), "0x0");
}
