use ff4::string::decode;
use ff4::DecodeError;

#[test]
fn decode_test() {
    assert_eq!(
        "Naga    ",
        decode(&[0x4f, 0x5c, 0x62, 0x5c, 0xff, 0xff, 0xff, 0xff]).unwrap()
    );
}

#[test]
fn decode_char_ranges_test() {
    for b in 0x42u8..=0x5b {
        let expected = ((b - 0x42 + b'A') as char).to_string();
        assert_eq!(expected, decode(&[b]).unwrap());
    }
    for b in 0x5cu8..=0x75 {
        let expected = ((b - 0x5c + b'a') as char).to_string();
        assert_eq!(expected, decode(&[b]).unwrap());
    }
    for b in 0x80u8..=0x89 {
        let expected = ((b - 0x80 + b'0') as char).to_string();
        assert_eq!(expected, decode(&[b]).unwrap());
    }
}

#[test]
fn decode_dictionary_test() {
    assert_eq!("th", decode(&[0x8b]).unwrap());
    assert_eq!("<mute>", decode(&[0x25]).unwrap());
    assert_eq!("…", decode(&[0xc3]).unwrap());
    assert_eq!("  ", decode(&[0xce]).unwrap());
    assert_eq!("The end", decode(&[0xde, 0x60, 0xff, 0x60, 0xaf]).unwrap());
}

#[test]
fn decode_unknown_byte_test() {
    assert_eq!(Err(DecodeError::UnknownByte(0x41)), decode(&[0x41]));
    assert_eq!(Err(DecodeError::UnknownByte(0x00)), decode(&[0x00]));
    // The first unmapped byte is the one reported, and no partial string
    // comes back.
    assert_eq!(
        Err(DecodeError::UnknownByte(0x3b)),
        decode(&[0x42, 0x3b, 0x00])
    );
}

#[test]
fn decode_empty_test() {
    assert_eq!("", decode(&[]).unwrap());
}

#[test]
fn decode_idempotent_test() {
    let window = [0x4f, 0x5c, 0x62, 0x5c, 0xff, 0xff, 0xff, 0xff];
    assert_eq!(decode(&window), decode(&window));
    let bad = [0x42, 0x3b];
    assert_eq!(decode(&bad), decode(&bad));
}
