use account_data::base16::{decode, encode, Base16Error};
use account_data::randomness::{RandomnessError, RandomnessWrapper};

#[test]
fn encoding_is_lowercase_hex() {
    assert_eq!(encode(&[0x01, 0xab, 0xff, 0x00]), "01abff00");
    assert_eq!(encode(&[]), "");
    let r = RandomnessWrapper::<4> { randomness: [0xde, 0xad, 0xBE, 0xef] };
    assert_eq!(r.base16_encode(), "deadbeef");
}

#[test]
fn decoding_accepts_either_case() {
    assert_eq!(decode("01AbfF"), Ok(vec![0x01, 0xab, 0xff]));
    assert_eq!(decode(""), Ok(vec![]));
    let r = RandomnessWrapper::<2>::base16_decode("BEef").unwrap();
    assert_eq!(r.randomness, [0xbe, 0xef]);
}

#[test]
fn randomness_round_trips() {
    let mut bytes = [0u8; 32];
    for (i, b) in bytes.iter_mut().enumerate() {
        *b = (i as u8).wrapping_mul(37).wrapping_add(11);
    }
    let r = RandomnessWrapper::<32> { randomness: bytes };
    let text = r.base16_encode();
    assert_eq!(text.len(), 64);
    assert_eq!(RandomnessWrapper::<32>::base16_decode(&text), Ok(r));
}

#[test]
fn non_hex_text_is_malformed() {
    assert_eq!(
        RandomnessWrapper::<1>::base16_decode("zz"),
        Err(RandomnessError::MalformedEncoding)
    );
    assert_eq!(decode("zz"), Err(Base16Error::NotHex));
    assert_eq!(decode("0é"), Err(Base16Error::NotHex));
}

#[test]
fn odd_length_text_is_malformed() {
    assert_eq!(decode("abc"), Err(Base16Error::NotHex));
    assert_eq!(
        RandomnessWrapper::<2>::base16_decode("abc"),
        Err(RandomnessError::MalformedEncoding)
    );
}

#[test]
fn wrong_length_is_malformed() {
    assert_eq!(
        RandomnessWrapper::<32>::base16_decode("abcd"),
        Err(RandomnessError::MalformedEncoding)
    );
    let long = "00".repeat(33);
    assert_eq!(
        RandomnessWrapper::<32>::base16_decode(&long),
        Err(RandomnessError::MalformedEncoding)
    );
    let exact = "00".repeat(32);
    assert_eq!(
        RandomnessWrapper::<32>::base16_decode(&exact),
        Ok(RandomnessWrapper { randomness: [0u8; 32] })
    );
}
