//! Tests of the bech32 string layer: data strings, compressed strings, id
//! strings, the strict-encoding strategy, and every error variant.

use lnpbp::bech32::{
    payload_to_bech32_zip_string, Bech32DataString, Bech32ZipString, Blob, Error,
    FromBech32DataStr, FromBech32IdStr, FromBech32Payload, FromBech32Str, FromBech32ZipStr,
    Strategy, ToBech32DataString, ToBech32IdString, ToBech32Payload, ToBech32String,
    ToBech32ZipString, HRP_DATA, HRP_ID, HRP_ZIP, RAW_DATA_ENCODING_DEFLATE,
};
use lnpbp::hashes::Hash256;

fn sample_payload() -> Vec<u8> {
    vec![0xde, 0xad, 0xbe, 0xef, 0x00, 0x11, 0x22, 0x33]
}

#[test]
fn data_string_round_trip() {
    let blob = Blob(sample_payload());
    let s = blob.to_bech32_data_string().expect("short payload encodes");
    assert!(s.starts_with("data1"));
    let back = Blob::from_bech32_data_str(&s).expect("own encoding decodes");
    assert_eq!(back, blob);
}

#[test]
fn data_string_matches_the_bech32_library() {
    let blob = Blob(sample_payload());
    let s = blob.to_bech32_data_string().unwrap();
    let hrp = bech32::Hrp::parse(HRP_DATA).unwrap();
    let expected = bech32::encode::<bech32::Bech32>(hrp, &sample_payload()).unwrap();
    assert_eq!(s, expected);
}

#[test]
fn borrowed_payload_gives_the_same_data_string() {
    let blob = Blob(sample_payload());
    assert_eq!(
        blob.bech32_data_string().unwrap(),
        blob.to_bech32_data_string().unwrap()
    );
}

#[test]
fn data_string_with_wrong_prefix_is_rejected() {
    let hrp = bech32::Hrp::parse(HRP_ID).unwrap();
    let s = bech32::encode::<bech32::Bech32>(hrp, &sample_payload()).unwrap();
    assert_eq!(Blob::from_bech32_data_str(&s), Err(Error::WrongPrefix));
}

#[test]
fn garbage_string_is_rejected() {
    assert_eq!(
        Blob::from_bech32_data_str("data1qqqqqqqqqqqqqq"),
        Err(Error::Bech32Error)
    );
    assert_eq!(Blob::from_bech32_data_str(""), Err(Error::Bech32Error));
}

#[test]
fn zip_string_round_trip() {
    let payload: Vec<u8> = b"a payload that is long enough to be worth compressing: \
                             aaaaaaaaaaaaaaaaaaaaaaaaaaaaaaaaaaaaaaaaaaaaaaaa"
        .to_vec();
    let blob = Blob(payload.clone());
    let s = blob.to_bech32_zip_string().expect("payload compresses");
    assert!(s.starts_with("z1"));
    let back = Blob::from_bech32_zip_str(&s).expect("own encoding decodes");
    assert_eq!(back.0, payload);
}

#[test]
fn zip_string_starts_with_the_version_byte() {
    let blob = Blob(sample_payload());
    let s = blob.bech32_zip_string().unwrap();
    let (hrp, data) = bech32::decode(&s).unwrap();
    assert_eq!(hrp.to_lowercase(), HRP_ZIP);
    assert_eq!(data[0], RAW_DATA_ENCODING_DEFLATE);
    let inflated = inflate::inflate_bytes(&data[1..]).unwrap();
    assert_eq!(inflated, sample_payload());
}

#[test]
fn zip_string_with_unknown_version_is_rejected() {
    let hrp = bech32::Hrp::parse(HRP_ZIP).unwrap();
    let mut data = vec![2u8];
    data.extend_from_slice(&sample_payload());
    let s = bech32::encode::<bech32::Bech32>(hrp, &data).unwrap();
    assert_eq!(
        Blob::from_bech32_zip_str(&s),
        Err(Error::UnknownRawDataEncoding(2))
    );
}

#[test]
fn zip_string_with_empty_payload_is_rejected() {
    let hrp = bech32::Hrp::parse(HRP_ZIP).unwrap();
    let s = bech32::encode::<bech32::Bech32>(hrp, &[]).unwrap();
    assert_eq!(Blob::from_bech32_zip_str(&s), Err(Error::WrongData));
}

#[test]
fn zip_string_with_corrupt_compression_is_rejected() {
    let hrp = bech32::Hrp::parse(HRP_ZIP).unwrap();
    let data = vec![RAW_DATA_ENCODING_DEFLATE, 0xff, 0xff, 0xff, 0xff];
    let s = bech32::encode::<bech32::Bech32>(hrp, &data).unwrap();
    match Blob::from_bech32_zip_str(&s) {
        Err(Error::InflateError(_)) => {}
        other => panic!("expected an inflate error, got {:?}", other),
    }
}

#[test]
fn zip_string_with_wrong_prefix_is_rejected() {
    let s = payload_to_bech32_zip_string(HRP_DATA, &sample_payload()).unwrap();
    assert_eq!(Blob::from_bech32_zip_str(&s), Err(Error::WrongPrefix));
}

#[test]
fn id_string_round_trip() {
    let hash = Hash256::hash(b"identify this");
    let s = hash.to_bech32_id_string();
    assert!(s.starts_with("id1"));
    let back = Hash256::from_bech32_id_str(&s).expect("own encoding decodes");
    assert_eq!(back, hash);
}

#[test]
fn id_string_with_wrong_length_is_rejected() {
    let hrp = bech32::Hrp::parse(HRP_ID).unwrap();
    let s = bech32::encode::<bech32::Bech32>(hrp, &[0u8; 20]).unwrap();
    assert_eq!(Hash256::from_bech32_id_str(&s), Err(Error::WrongData));
}

#[test]
fn id_string_with_wrong_prefix_is_rejected() {
    let hash = Hash256::hash(b"identify this");
    let s = Blob(hash.bytes.clone()).to_bech32_data_string().unwrap();
    assert_eq!(Hash256::from_bech32_id_str(&s), Err(Error::WrongPrefix));
}

#[test]
fn strict_encoding_string_round_trip() {
    let blob = Blob(sample_payload());
    let s = blob.to_bech32_string().expect("short payload encodes");
    let back = Blob::from_bech32_str(&s).expect("own encoding decodes");
    assert_eq!(back, blob);
}

#[test]
fn strict_encoding_string_is_length_prefixed() {
    let blob = Blob(sample_payload());
    let s = blob.to_bech32_string().unwrap();
    let (hrp, data) = bech32::decode(&s).unwrap();
    assert_eq!(hrp.to_lowercase(), <Blob as Strategy>::strategy_hrp());
    assert_eq!(data[0] as usize, sample_payload().len());
    assert_eq!(data[1], 0);
    assert_eq!(&data[2..], sample_payload().as_slice());
}

#[test]
fn strict_encoding_string_rejects_trailing_bytes() {
    let hrp = bech32::Hrp::parse(HRP_DATA).unwrap();
    // Length prefix of 1, but three payload bytes follow.
    let s = bech32::encode::<bech32::Bech32>(hrp, &[1u8, 0, 0xaa, 0xbb, 0xcc]).unwrap();
    assert_eq!(Blob::from_bech32_str(&s), Err(Error::WrongData));
}

#[test]
fn blob_parses_from_a_data_string() {
    let blob = Blob(sample_payload());
    let s = blob.to_bech32_data_string().unwrap();
    let back: Blob = s.parse().expect("the string form parses");
    assert_eq!(back, blob);
}

#[test]
fn payload_traits_expose_the_wrapped_bytes() {
    let blob = Blob(sample_payload());
    assert_eq!(blob.to_bech32_payload(), sample_payload());
    let back = Blob::from_bech32_payload(sample_payload()).unwrap();
    assert_eq!(back, blob);
}

#[test]
fn hashes_differ_from_their_input() {
    // The digest helpers must transform their input, not hand it back.
    let hash = Hash256::hash(&[0u8; 32]);
    assert_ne!(hash.bytes, vec![0u8; 32]);
    assert_eq!(hash.bytes.len(), 32);
}
