use dinosaur_game::{decode_highscore, encode_highscore, HighscoreError};

#[test]
fn round_trip_zero() {
    assert_eq!(decode_highscore(&encode_highscore(0)), Ok(0));
}

#[test]
fn round_trip_one() {
    assert_eq!(decode_highscore(&encode_highscore(1)), Ok(1));
}

#[test]
fn round_trip_max() {
    assert_eq!(decode_highscore(&encode_highscore(u64::MAX)), Ok(u64::MAX));
}

#[test]
fn round_trip_arbitrary() {
    for v in [255u64, 256, 65535, 123456789, 0x0102_0304_0506_0708, 1 << 63] {
        assert_eq!(decode_highscore(&encode_highscore(v)), Ok(v));
    }
}

#[test]
fn encoding_is_little_endian() {
    assert_eq!(encode_highscore(1), vec![1, 0, 0, 0, 0, 0, 0, 0]);
    assert_eq!(encode_highscore(0x0102_0304_0506_0708), vec![8, 7, 6, 5, 4, 3, 2, 1]);
    assert_eq!(encode_highscore(4242), 4242u64.to_le_bytes().to_vec());
}

#[test]
fn decoding_matches_le_bytes() {
    let bytes = [0x10, 0x20, 0, 0, 0, 0, 0, 0x80];
    assert_eq!(decode_highscore(&bytes), Ok(u64::from_le_bytes(bytes)));
}

#[test]
fn wrong_length_is_refused() {
    assert_eq!(decode_highscore(&[]), Err(HighscoreError::WrongLength(0)));
    assert_eq!(decode_highscore(&[1, 2, 3]), Err(HighscoreError::WrongLength(3)));
    assert_eq!(decode_highscore(&[0; 9]), Err(HighscoreError::WrongLength(9)));
}
