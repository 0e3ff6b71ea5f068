use ntp_core::packet::{
    NtpAssociationMode, NtpHeader, ReferenceId, KISS_DENY, KISS_RATE, KISS_RSTR,
};
use ntp_core::time::{NtpDuration, NtpLeapIndicator, NtpTimestamp};

#[test]
fn serialize_is_48_bytes() {
    let header = NtpHeader::new();
    assert_eq!(header.serialize().len(), 48);
}

#[test]
fn header_roundtrip() {
    let mut header = NtpHeader::new();
    header.leap = NtpLeapIndicator::Leap59;
    header.mode = NtpAssociationMode::Server;
    header.stratum = 2;
    header.poll = 6;
    header.precision = -18;
    header.root_delay = NtpDuration::from_bits(0x12345i64 << 16);
    header.root_dispersion = NtpDuration::from_bits(0x00abcdi64 << 16);
    header.reference_id = ReferenceId::new(0x47505300);
    header.reference_timestamp = NtpTimestamp::from_bits(0x0123456789abcdef);
    header.origin_timestamp = NtpTimestamp::from_bits(0x1111222233334444);
    header.receive_timestamp = NtpTimestamp::from_bits(0x5555666677778888);
    header.transmit_timestamp = NtpTimestamp::from_bits(0x99990000aaaabbbb);

    let bytes = header.serialize();
    let buf: [u8; 48] = bytes.try_into().unwrap();
    let parsed = NtpHeader::deserialize(&buf);

    assert_eq!(parsed, header);
}

#[test]
fn deserialize_reads_leap_version_mode() {
    let mut buf = [0u8; 48];
    // leap 3 (unknown), version 4, mode 4 (server)
    buf[0] = 3 * 64 + 4 * 8 + 4;
    buf[1] = 1;
    let parsed = NtpHeader::deserialize(&buf);
    assert_eq!(parsed.leap, NtpLeapIndicator::Unknown);
    assert_eq!(parsed.version, 4);
    assert_eq!(parsed.mode, NtpAssociationMode::Server);
    assert_eq!(parsed.stratum, 1);
}

#[test]
fn negative_precision_survives_roundtrip() {
    let mut header = NtpHeader::new();
    header.poll = -1;
    header.precision = -32;
    let bytes = header.serialize();
    let buf: [u8; 48] = bytes.try_into().unwrap();
    let parsed = NtpHeader::deserialize(&buf);
    assert_eq!(parsed.poll, -1);
    assert_eq!(parsed.precision, -32);
}

#[test]
fn kiss_codes_are_ascii() {
    assert_eq!(KISS_DENY.to_be_bytes(), *b"DENY");
    assert_eq!(KISS_RSTR.to_be_bytes(), *b"RSTR");
    assert_eq!(KISS_RATE.to_be_bytes(), *b"RATE");
    assert!(ReferenceId::new(KISS_DENY).is_deny());
    assert!(ReferenceId::new(KISS_RSTR).is_rstr());
    assert!(ReferenceId::new(KISS_RATE).is_rate());
    assert!(!ReferenceId::new(KISS_RATE).is_deny());
}

#[test]
fn timestamp_difference_wraps() {
    let a = NtpTimestamp::from_bits(0);
    let b = NtpTimestamp::from_bits(u64::MAX);
    assert_eq!(a.difference(b).to_bits(), 1);
    assert_eq!(b.difference(a).to_bits(), -1);

    let x = NtpTimestamp::from_bits(10u64 << 32);
    let y = NtpTimestamp::from_bits(4u64 << 32);
    assert_eq!(x.difference(y).to_bits(), 6i64 << 32);
    assert_eq!(y.difference(x).to_bits(), -(6i64 << 32));
}

#[test]
fn duration_arithmetic_saturates() {
    let max = NtpDuration::from_bits(i64::MAX);
    let one = NtpDuration::from_bits(1);
    assert_eq!(max.saturating_add(one).to_bits(), i64::MAX);

    let min = NtpDuration::from_bits(i64::MIN);
    assert_eq!(min.saturating_sub(one).to_bits(), i64::MIN);

    assert_eq!(one.saturating_add(one).to_bits(), 2);
}

#[test]
fn halving_truncates_toward_zero() {
    assert_eq!(NtpDuration::from_bits(5).half().to_bits(), 2);
    assert_eq!(NtpDuration::from_bits(-5).half().to_bits(), -2);
}
