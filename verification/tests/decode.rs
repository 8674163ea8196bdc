use smt100::DecodeError;
use smt100::RawCounts;
use smt100::RelativePermittivity;
use smt100::Temperature;
use smt100::VolumetricWaterContent;
use smt100::RelativePermittivityRaw;
use smt100::VolumetricWaterContentRaw;
use smt100::decode_be_u16_from_bytes;
use smt100::decode_permittivity_from_bytes;
use smt100::decode_permittivity_from_u16;
use smt100::decode_raw_counts_from_bytes;
use smt100::decode_raw_counts_from_u16;
use smt100::decode_temperature_from_bytes;
use smt100::decode_temperature_from_u16;
use smt100::decode_water_content_from_bytes;
use smt100::decode_water_content_from_u16;
use smt100::encode_permittivity_to_u16;
use smt100::encode_temperature_to_u16;
use smt100::encode_water_content_to_u16;

#[test]
fn water_content_percent() {
    for i in 0..=100i32 {
        let vwc = VolumetricWaterContent::from_centi_percent(i * 100);
        assert!(vwc.is_valid());
        assert_eq!(vwc.to_centi_percent(), i * 100);
    }
    assert!(!VolumetricWaterContent::from_centi_percent(-50).is_valid());
    assert!(!VolumetricWaterContent::from_centi_percent(10001).is_valid());
}

#[test]
fn decode_temperature() {
    assert_eq!(
        Temperature::from_centi_celsius(-4000),
        decode_temperature_from_bytes(&[0x17, 0x70]).unwrap().0
    );
    assert_eq!(
        Temperature::from_centi_celsius(0),
        decode_temperature_from_bytes(&[0x27, 0x10]).unwrap().0
    );
    assert_eq!(
        Temperature::from_centi_celsius(2797),
        decode_temperature_from_bytes(&[0x31, 0xFD]).unwrap().0
    );
    assert_eq!(
        Temperature::from_centi_celsius(6000),
        decode_temperature_from_bytes(&[0x3E, 0x80]).unwrap().0
    );
    assert_eq!(
        Temperature::from_centi_celsius(8000),
        decode_temperature_from_bytes(&[0x46, 0x50]).unwrap().0
    );
}

#[test]
fn decode_water_content() {
    // Valid range
    assert_eq!(
        VolumetricWaterContent::from_centi_percent(0),
        decode_water_content_from_bytes(&[0x00, 0x00]).unwrap().0
    );
    assert_eq!(
        VolumetricWaterContent::from_centi_percent(3440),
        decode_water_content_from_bytes(&[0x0D, 0x70]).unwrap().0
    );
    assert_eq!(
        VolumetricWaterContent::from_centi_percent(10000),
        decode_water_content_from_bytes(&[0x27, 0x10]).unwrap().0
    );
    // Invalid range
    assert!(decode_water_content_from_bytes(&[0x27, 0x11]).is_err());
    assert!(decode_water_content_from_bytes(&[0xFF, 0xFF]).is_err());
}

#[test]
fn decode_permittivity() {
    // Valid range
    assert_eq!(
        RelativePermittivity::from_centi_ratio(100),
        decode_permittivity_from_bytes(&[0x00, 0x64]).unwrap().0
    );
    assert_eq!(
        RelativePermittivity::from_centi_ratio(1520),
        decode_permittivity_from_bytes(&[0x05, 0xF0]).unwrap().0
    );
    // Invalid range
    assert!(decode_permittivity_from_bytes(&[0x00, 0x00]).is_err());
    assert!(decode_permittivity_from_bytes(&[0x00, 0x63]).is_err());
}

#[test]
fn temperature_formula_matches_celsius() {
    // The decoded centi-value stands for (raw - 10000) / 100 degrees.
    for raw in [0u16, 6000, 10000, 10001, 36000, 65535] {
        let t = decode_temperature_from_u16(raw).unwrap();
        let celsius = f64::from(t.to_centi_celsius()) / 100.0;
        assert_eq!(celsius, (f64::from(raw) - 10000.0) / 100.0);
    }
    assert_eq!(decode_temperature_from_u16(0).unwrap().to_centi_celsius(), -10000);
    assert_eq!(decode_temperature_from_u16(65535).unwrap().to_centi_celsius(), 55535);
}

#[test]
fn water_content_decode_boundaries() {
    assert_eq!(
        decode_water_content_from_u16(10000),
        Ok(VolumetricWaterContent::from_centi_percent(10000))
    );
    assert_eq!(decode_water_content_from_u16(10001), Err(DecodeError::InvalidData));
    assert_eq!(decode_water_content_from_u16(65535), Err(DecodeError::InvalidData));
    for raw in [0u16, 1, 5000, 10000] {
        let v = decode_water_content_from_u16(raw).unwrap();
        assert_eq!(f64::from(v.to_centi_percent()) / 100.0, f64::from(raw) / 100.0);
        assert!(v.is_valid());
    }
}

#[test]
fn permittivity_decode_boundaries() {
    assert_eq!(
        decode_permittivity_from_u16(100),
        Ok(RelativePermittivity::from_centi_ratio(100))
    );
    assert_eq!(decode_permittivity_from_u16(99), Err(DecodeError::InvalidData));
    assert_eq!(decode_permittivity_from_u16(0), Err(DecodeError::InvalidData));
    for raw in [100u16, 1520, 65535] {
        let p = decode_permittivity_from_u16(raw).unwrap();
        assert_eq!(f64::from(p.to_centi_ratio()) / 100.0, f64::from(raw) / 100.0);
        assert!(p.is_valid());
    }
}

#[test]
fn raw_counts_decode_is_identity() {
    for raw in [0u16, 1, 10000, 65535] {
        assert_eq!(decode_raw_counts_from_u16(raw), Ok(RawCounts::from(raw)));
        assert_eq!(u16::from(decode_raw_counts_from_u16(raw).unwrap()), raw);
    }
}

#[test]
fn byte_decoders_need_two_bytes() {
    assert_eq!(decode_be_u16_from_bytes(&[]).unwrap_err(), DecodeError::InsufficientInput);
    assert_eq!(decode_be_u16_from_bytes(&[0x27]).unwrap_err(), DecodeError::InsufficientInput);
    assert_eq!(
        decode_temperature_from_bytes(&[0x17]).unwrap_err(),
        DecodeError::InsufficientInput
    );
    assert_eq!(decode_water_content_from_bytes(&[]).unwrap_err(), DecodeError::InsufficientInput);
    assert_eq!(
        decode_permittivity_from_bytes(&[0xFF]).unwrap_err(),
        DecodeError::InsufficientInput
    );
    assert_eq!(decode_raw_counts_from_bytes(&[0x01]).unwrap_err(), DecodeError::InsufficientInput);
}

#[test]
fn byte_decoders_hand_back_the_remainder() {
    let (word, rest) = decode_be_u16_from_bytes(&[0x27, 0x10, 0xAB, 0xCD]).unwrap();
    assert_eq!(word, 10000);
    assert_eq!(rest, &[0xAB, 0xCD]);
    let (t, rest) = decode_temperature_from_bytes(&[0x27, 0x10, 0x99]).unwrap();
    assert_eq!(t, Temperature::from_centi_celsius(0));
    assert_eq!(rest, &[0x99]);
    let (c, rest) = decode_raw_counts_from_bytes(&[0x12, 0x34]).unwrap();
    assert_eq!(c, RawCounts::from(0x1234));
    assert_eq!(rest, &[] as &[u8]);
}

#[test]
fn register_round_trips() {
    // Register to value and back, for each quantity with an encoder.
    for raw in [0u16, 6000, 10000, 65535] {
        let t = decode_temperature_from_u16(raw).unwrap();
        assert_eq!(encode_temperature_to_u16(t), Ok(raw));
    }
    for raw in [0u16, 3440, 10000] {
        let v = decode_water_content_from_u16(raw).unwrap();
        assert_eq!(encode_water_content_to_u16(v), Ok(raw));
    }
    for raw in [100u16, 1520, 65535] {
        let p = decode_permittivity_from_u16(raw).unwrap();
        assert_eq!(encode_permittivity_to_u16(p), Ok(raw));
    }
    // Value to register and back.
    let t = Temperature::from_centi_celsius(-4000);
    assert_eq!(decode_temperature_from_u16(encode_temperature_to_u16(t).unwrap()), Ok(t));
    let v = VolumetricWaterContent::from_centi_percent(3000);
    assert_eq!(decode_water_content_from_u16(encode_water_content_to_u16(v).unwrap()), Ok(v));
    let p = RelativePermittivity::from_centi_ratio(1520);
    assert_eq!(decode_permittivity_from_u16(encode_permittivity_to_u16(p).unwrap()), Ok(p));
}

#[test]
fn encoders_reject_out_of_range_values() {
    assert_eq!(
        encode_temperature_to_u16(Temperature::from_centi_celsius(-10001)),
        Err(DecodeError::InvalidData)
    );
    assert_eq!(
        encode_temperature_to_u16(Temperature::from_centi_celsius(55536)),
        Err(DecodeError::InvalidData)
    );
    assert_eq!(
        encode_water_content_to_u16(VolumetricWaterContent::from_centi_percent(10001)),
        Err(DecodeError::InvalidData)
    );
    assert_eq!(
        encode_water_content_to_u16(VolumetricWaterContent::from_centi_percent(-1)),
        Err(DecodeError::InvalidData)
    );
    assert_eq!(
        encode_permittivity_to_u16(RelativePermittivity::from_centi_ratio(99)),
        Err(DecodeError::InvalidData)
    );
    assert_eq!(
        encode_permittivity_to_u16(RelativePermittivity::from_centi_ratio(65536)),
        Err(DecodeError::InvalidData)
    );
}

#[test]
fn raw_wrappers_convert_without_validation() {
    assert_eq!(
        VolumetricWaterContent::from(VolumetricWaterContentRaw(3440)),
        VolumetricWaterContent::from_centi_percent(3440)
    );
    // The bare conversion applies no range check; validation is the
    // decoder's work.
    assert!(!VolumetricWaterContent::from(VolumetricWaterContentRaw(65535)).is_valid());
    assert_eq!(
        RelativePermittivity::from(RelativePermittivityRaw(1520)),
        RelativePermittivity::from_centi_ratio(1520)
    );
    assert!(!RelativePermittivity::from(RelativePermittivityRaw(99)).is_valid());
}

#[test]
fn unit_bounds() {
    assert_eq!(VolumetricWaterContent::min_centi_percent(), 0);
    assert_eq!(VolumetricWaterContent::max_centi_percent(), 10000);
    assert_eq!(VolumetricWaterContent::min().to_centi_percent(), 0);
    assert_eq!(VolumetricWaterContent::max().to_centi_percent(), 10000);
    assert!(VolumetricWaterContent::min().is_valid());
    assert!(VolumetricWaterContent::max().is_valid());
    assert_eq!(RelativePermittivity::min_centi_ratio(), 100);
    assert_eq!(RelativePermittivity::min().to_centi_ratio(), 100);
    assert!(RelativePermittivity::min().is_valid());
    assert_eq!(RawCounts::default(), RawCounts(0));
}
