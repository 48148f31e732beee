use arrayvec::ArrayVec;
use tlv_codec::TlvType;
use tlv_codec::WireFormatError;
use tlv_codec::TLV;

fn all_types() -> Vec<TlvType> {
    vec![
        TlvType::Reserved,
        TlvType::Management,
        TlvType::ManagementErrorStatus,
        TlvType::OrganizationExtension,
        TlvType::RequestUnicastTransmission,
        TlvType::GrantUnicastTransmission,
        TlvType::CancelUnicastTransmission,
        TlvType::AcknowledgeCancelUnicastTransmission,
        TlvType::PathTrace,
        TlvType::AlternateTimeOffsetIndicator,
        TlvType::Legacy,
        TlvType::Experimental,
        TlvType::OrganizationExtensionPropagate,
        TlvType::EnhancedAccuracyMetrics,
        TlvType::OrganizationExtensionDoNotPropagate,
        TlvType::L1Sync,
        TlvType::PortCommunicationAvailability,
        TlvType::ProtocolAddress,
        TlvType::SlaveRxSyncTimingData,
        TlvType::SlaveRxSyncComputedData,
        TlvType::SlaveTxEventTimestamps,
        TlvType::CumulativeRateRatio,
        TlvType::Pad,
        TlvType::Authentication,
    ]
}

fn record(tlv_type: TlvType, payload: &[u8]) -> TLV {
    let mut value = ArrayVec::<u8, 128>::new();
    for byte in payload {
        value.push(*byte);
    }
    TLV {
        tlv_type,
        length: payload.len() as u16,
        value,
    }
}

#[test]
fn type_code_roundtrip_every_category() {
    for t in all_types() {
        assert_eq!(TlvType::from_primitive(t.to_primitive()), t);
    }
}

#[test]
fn singleton_codes_classify_exactly() {
    assert_eq!(TlvType::from_primitive(0x0001), TlvType::Management);
    assert_eq!(TlvType::from_primitive(0x0002), TlvType::ManagementErrorStatus);
    assert_eq!(TlvType::from_primitive(0x0003), TlvType::OrganizationExtension);
    assert_eq!(
        TlvType::from_primitive(0x0004),
        TlvType::RequestUnicastTransmission
    );
    assert_eq!(
        TlvType::from_primitive(0x0005),
        TlvType::GrantUnicastTransmission
    );
    assert_eq!(
        TlvType::from_primitive(0x0006),
        TlvType::CancelUnicastTransmission
    );
    assert_eq!(
        TlvType::from_primitive(0x0007),
        TlvType::AcknowledgeCancelUnicastTransmission
    );
    assert_eq!(TlvType::from_primitive(0x0008), TlvType::PathTrace);
    assert_eq!(
        TlvType::from_primitive(0x0009),
        TlvType::AlternateTimeOffsetIndicator
    );
    assert_eq!(
        TlvType::from_primitive(0x4000),
        TlvType::OrganizationExtensionPropagate
    );
    assert_eq!(
        TlvType::from_primitive(0x4001),
        TlvType::EnhancedAccuracyMetrics
    );
    assert_eq!(
        TlvType::from_primitive(0x8000),
        TlvType::OrganizationExtensionDoNotPropagate
    );
    assert_eq!(TlvType::from_primitive(0x8001), TlvType::L1Sync);
    assert_eq!(
        TlvType::from_primitive(0x8002),
        TlvType::PortCommunicationAvailability
    );
    assert_eq!(TlvType::from_primitive(0x8003), TlvType::ProtocolAddress);
    assert_eq!(
        TlvType::from_primitive(0x8004),
        TlvType::SlaveRxSyncTimingData
    );
    assert_eq!(
        TlvType::from_primitive(0x8005),
        TlvType::SlaveRxSyncComputedData
    );
    assert_eq!(
        TlvType::from_primitive(0x8006),
        TlvType::SlaveTxEventTimestamps
    );
    assert_eq!(TlvType::from_primitive(0x8007), TlvType::CumulativeRateRatio);
    assert_eq!(TlvType::from_primitive(0x8008), TlvType::Pad);
    assert_eq!(TlvType::from_primitive(0x8009), TlvType::Authentication);
}

#[test]
fn range_codes_classify_to_their_category() {
    for code in [0x2000u16, 0x2001, 0x2002, 0x2003] {
        assert_eq!(TlvType::from_primitive(code), TlvType::Legacy);
    }
    for code in [0x2004u16, 0x2010, 0x202f, 0x7f00, 0x7f80, 0x7fff] {
        assert_eq!(TlvType::from_primitive(code), TlvType::Experimental);
    }
    for code in [
        0x0000u16, 0x000a, 0x1000, 0x1fff, 0x2030, 0x3fff, 0x4002, 0x7eff, 0x800a, 0xffef,
        0xfff0, 0xffff,
    ] {
        assert_eq!(TlvType::from_primitive(code), TlvType::Reserved);
    }
}

#[test]
fn every_code_classifies_to_some_category() {
    let mut counts = [0usize; 24];
    for code in 0..=0xffffu16 {
        let t = TlvType::from_primitive(code);
        let i = all_types().iter().position(|x| *x == t).unwrap();
        counts[i] += 1;
    }
    let total: usize = counts.iter().sum();
    assert_eq!(total, 65536);
    // every category is reachable from some code
    for n in counts {
        assert!(n > 0);
    }
}

#[test]
fn wire_size_is_header_plus_length() {
    let t = record(TlvType::PathTrace, &[0xaa, 0xbb]);
    assert_eq!(t.wire_size(), 6);
    let empty = record(TlvType::Management, &[]);
    assert_eq!(empty.wire_size(), 4);
}

#[test]
fn encode_path_trace_record() {
    let t = record(TlvType::PathTrace, &[0xaa, 0xbb]);
    let mut buffer = [0u8; 6];
    assert!(t.serialize(&mut buffer).is_ok());
    assert_eq!(buffer, [0x00, 0x08, 0x00, 0x02, 0xaa, 0xbb]);
    let back = TLV::deserialize(&buffer).unwrap();
    assert_eq!(back, t);
}

#[test]
fn encode_leaves_trailing_bytes_untouched() {
    let t = record(TlvType::Pad, &[0x11]);
    let mut buffer = [0xffu8; 8];
    assert!(t.serialize(&mut buffer).is_ok());
    assert_eq!(buffer, [0x80, 0x08, 0x00, 0x01, 0x11, 0xff, 0xff, 0xff]);
}

#[test]
fn decode_reads_header_and_payload() {
    let buffer = [0x00, 0x01, 0x00, 0x03, 0x01, 0x02, 0x03];
    let t = TLV::deserialize(&buffer).unwrap();
    assert_eq!(t.tlv_type, TlvType::Management);
    assert_eq!(t.length, 3);
    assert_eq!(t.value.as_slice(), &[0x01, 0x02, 0x03]);
}

#[test]
fn decode_ignores_bytes_past_the_record() {
    let buffer = [0x00, 0x08, 0x00, 0x01, 0xaa, 0xde, 0xad];
    let t = TLV::deserialize(&buffer).unwrap();
    assert_eq!(t, record(TlvType::PathTrace, &[0xaa]));
}

#[test]
fn decode_short_header_fails() {
    assert_eq!(
        TLV::deserialize(&[]),
        Err(WireFormatError::BufferTooShort)
    );
    assert_eq!(
        TLV::deserialize(&[0x00]),
        Err(WireFormatError::BufferTooShort)
    );
    assert_eq!(
        TLV::deserialize(&[0x00, 0x08, 0x00]),
        Err(WireFormatError::BufferTooShort)
    );
}

#[test]
fn decode_truncated_payload_fails() {
    // header declares 2 payload bytes, only 1 follows
    let buffer = [0x00, 0x08, 0x00, 0x02, 0xaa];
    assert_eq!(
        TLV::deserialize(&buffer),
        Err(WireFormatError::BufferTooShort)
    );
}

#[test]
fn decode_over_capacity_fails_despite_enough_bytes() {
    // header declares 200 payload bytes and the buffer holds them all
    let mut buffer = vec![0x00, 0x08, 0x00, 200];
    buffer.extend(std::iter::repeat(0x55).take(200));
    assert_eq!(
        TLV::deserialize(&buffer),
        Err(WireFormatError::CapacityError)
    );
}

#[test]
fn decode_at_capacity_boundary_succeeds() {
    // a 128-byte payload fills the capacity exactly
    let mut buffer = vec![0x00, 0x08, 0x00, 128];
    buffer.extend((0..128).map(|i| i as u8));
    let t = TLV::deserialize(&buffer).unwrap();
    assert_eq!(t.tlv_type, TlvType::PathTrace);
    assert_eq!(t.length, 128);
    assert_eq!(t.value.as_slice(), &buffer[4..132]);
}

#[test]
fn decode_one_past_capacity_fails() {
    let mut buffer = vec![0x00, 0x08, 0x00, 129];
    buffer.extend(std::iter::repeat(0x55).take(129));
    assert_eq!(
        TLV::deserialize(&buffer),
        Err(WireFormatError::CapacityError)
    );
}

#[test]
fn encode_decode_roundtrip_various_records() {
    let records = vec![
        record(TlvType::Management, &[]),
        record(TlvType::Reserved, &[0x00]),
        record(TlvType::Authentication, &[0x01, 0x02, 0x03, 0x04, 0x05]),
        record(TlvType::Experimental, &(0..128).map(|i| i as u8).collect::<Vec<u8>>()),
    ];
    for t in records {
        let mut buffer = vec![0u8; t.wire_size()];
        assert!(t.serialize(&mut buffer).is_ok());
        let back = TLV::deserialize(&buffer).unwrap();
        assert_eq!(back, t);
    }
}

#[test]
fn default_record_is_empty_management() {
    let t = TLV::default();
    assert_eq!(t.tlv_type, TlvType::Management);
    assert_eq!(t.length, 0);
    assert!(t.value.is_empty());
    assert_eq!(TlvType::default(), TlvType::Management);
}

#[test]
fn two_byte_fields_use_big_endian_order() {
    let t = record(TlvType::Legacy, &(0..0x0100).map(|i| i as u8).collect::<Vec<u8>>()[..5]);
    let mut buffer = [0u8; 9];
    assert!(t.serialize(&mut buffer).is_ok());
    // Legacy's representative code 0x2000: high byte first
    assert_eq!(&buffer[0..2], &[0x20, 0x00]);
    assert_eq!(&buffer[2..4], &[0x00, 0x05]);
}
