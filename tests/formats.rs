use rsoundio::{SampleType, SioBackend, SioChannelId, SioError, SioFormat};

#[test]
fn test_enums() {
    assert_eq!(1, SioFormat::U8.bytes_per_sample());
    assert_eq!(4, SioFormat::U32LE.bytes_per_sample());
}

#[test]
fn bytes_per_sample_of_every_format() {
    let expected = [
        (SioFormat::Invalid, -1),
        (SioFormat::S8, 1),
        (SioFormat::U8, 1),
        (SioFormat::S16LE, 2),
        (SioFormat::S16BE, 2),
        (SioFormat::U16LE, 2),
        (SioFormat::U16BE, 2),
        (SioFormat::S24LE, 3),
        (SioFormat::S24BE, 3),
        (SioFormat::U24LE, 3),
        (SioFormat::U24BE, 3),
        (SioFormat::S32LE, 4),
        (SioFormat::S32BE, 4),
        (SioFormat::U32LE, 4),
        (SioFormat::U32BE, 4),
        (SioFormat::Float32LE, 4),
        (SioFormat::Float32BE, 4),
        (SioFormat::Float64LE, 8),
        (SioFormat::Float64BE, 8),
    ];
    for (format, width) in expected.iter() {
        assert_eq!(format.bytes_per_sample(), *width, "{:?}", format);
    }
}

#[test]
fn sample_type_follows_format() {
    assert_eq!(SioFormat::Float32LE.sample_type(), Some(SampleType::F32));
    assert_eq!(SioFormat::Float64BE.sample_type(), Some(SampleType::F64));
    assert_eq!(SioFormat::S16BE.sample_type(), Some(SampleType::I16));
    assert_eq!(SioFormat::U8.sample_type(), Some(SampleType::U8));
    assert_eq!(SioFormat::S24LE.sample_type(), None);
    assert_eq!(SioFormat::U24BE.sample_type(), None);
    assert_eq!(SioFormat::Invalid.sample_type(), None);
}

#[test]
fn error_codes_round_trip() {
    for c in 0..SioError::COUNT {
        let e = SioError::from_code(c).unwrap();
        assert_eq!(e.code(), c);
    }
    assert_eq!(SioError::from_code(SioError::COUNT), None);
    assert_eq!(SioError::NoError.code(), 0);
    assert_eq!(SioError::Invalid.code(), 6);
    assert_eq!(SioError::EncodingString.code(), 15);
    assert_eq!(SioError::from_code(14), Some(SioError::Underflow));
}

#[test]
fn other_codes_round_trip() {
    for c in 0..SioFormat::COUNT {
        assert_eq!(SioFormat::from_code(c).unwrap().code(), c);
    }
    assert_eq!(SioFormat::from_code(19), None);
    assert_eq!(SioFormat::Float32LE.code(), 15);
    for c in 0..SioChannelId::COUNT {
        assert_eq!(SioChannelId::from_code(c).unwrap().code(), c);
    }
    assert_eq!(SioChannelId::from_code(69), None);
    assert_eq!(SioChannelId::Lfe2.code(), 32);
    assert_eq!(SioBackend::from_code(3), Some(SioBackend::Alsa));
    assert_eq!(SioBackend::from_code(7), None);
}

#[test]
fn fatal_errors() {
    assert!(SioError::Streaming.is_fatal());
    assert!(SioError::BackendDisconnected.is_fatal());
    assert!(!SioError::Underflow.is_fatal());
    assert!(!SioError::Invalid.is_fatal());
}
