use nuance::codec::{decode_i16, decode_i8, encode_i16, encode_i8};
use nuance::error::BridgeError;
use nuance::types::{Bitrate, Sound};

#[test]
fn sixteen_bit_samples_are_little_endian() {
    assert_eq!(encode_i16(&[1, -2, 0x1234]), vec![0x01, 0x00, 0xfe, 0xff, 0x34, 0x12]);
    assert_eq!(decode_i16(&[0x01, 0x00, 0xfe, 0xff, 0x34, 0x12]), Ok(vec![1, -2, 0x1234]));
}

#[test]
fn sixteen_bit_extremes_round_trip() {
    let samples = vec![i16::MIN, -1, 0, 1, i16::MAX, 256, -256, 255, -255];
    let bytes = encode_i16(&samples);
    assert_eq!(bytes.len(), 2 * samples.len());
    assert_eq!(decode_i16(&bytes), Ok(samples));
}

#[test]
fn every_sixteen_bit_sample_round_trips() {
    let samples: Vec<i16> = (i16::MIN..=i16::MAX).collect();
    assert_eq!(decode_i16(&encode_i16(&samples)), Ok(samples));
}

#[test]
fn every_eight_bit_sample_round_trips() {
    let samples: Vec<i8> = (i8::MIN..=i8::MAX).collect();
    assert_eq!(decode_i8(&encode_i8(&samples)), samples);
    let bytes: Vec<u8> = (u8::MIN..=u8::MAX).collect();
    assert_eq!(encode_i8(&decode_i8(&bytes)), bytes);
}

#[test]
fn eight_bit_samples_keep_their_bits() {
    assert_eq!(encode_i8(&[0, 1, 127, -128, -1]), vec![0x00, 0x01, 0x7f, 0x80, 0xff]);
    assert_eq!(decode_i8(&[0x00, 0x01, 0x7f, 0x80, 0xff]), vec![0, 1, 127, -128, -1]);
}

#[test]
fn odd_trailing_byte_is_malformed() {
    assert_eq!(decode_i16(&[0x01, 0x00, 0x02]), Err(BridgeError::MalformedAudioData));
    assert_eq!(decode_i16(&[0x01]), Err(BridgeError::MalformedAudioData));
    assert_eq!(
        Sound::from_bytes(Bitrate::Bits_16, &[1, 2, 3]),
        Err(BridgeError::MalformedAudioData)
    );
}

#[test]
fn empty_streams_decode_to_no_samples() {
    assert_eq!(decode_i16(&[]), Ok(vec![]));
    assert_eq!(decode_i8(&[]), Vec::<i8>::new());
    assert_eq!(encode_i16(&[]), Vec::<u8>::new());
}

#[test]
fn sound_round_trips_through_bytes() {
    let wide = Sound::from_vec_i16(vec![-32768, -1, 0, 1, 32767]);
    assert_eq!(wide.bitrate(), Bitrate::Bits_16);
    assert_eq!(wide.len(), 5);
    assert_eq!(Sound::from_bytes(wide.bitrate(), &wide.to_bytes()), Ok(wide));

    let narrow = Sound::from_vec_u8(vec![0, 1, 127, 128, 255]);
    assert_eq!(narrow, Sound::Bits_8(vec![0, 1, 127, -128, -1]));
    assert_eq!(narrow.to_bytes(), vec![0, 1, 127, 128, 255]);
    assert_eq!(Sound::from_bytes(Bitrate::Bits_8, &narrow.to_bytes()), Ok(narrow));
}
