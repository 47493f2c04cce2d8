use riot_wrappers::nimble::uuid::{parse_uuid_into, Uuid128, Uuid16, Uuid32};

#[test]
fn uuid16_is_stored_little_endian() {
    let u = Uuid16::from_str("1234").unwrap();
    assert_eq!(u.value(), &[0x34, 0x12]);
    let u: Uuid16 = "aBcD".parse().unwrap();
    assert_eq!(u.value(), &[0xcd, 0xab]);
}

#[test]
fn short_strings_fill_from_the_end() {
    assert_eq!(Uuid32::from_str("12").unwrap().value(), &[0, 0, 0, 0x12]);
    assert_eq!(Uuid32::from_str("").unwrap().value(), &[0, 0, 0, 0]);
}

#[test]
fn uuid128_with_dashes() {
    let u = Uuid128::from_str("00112233-4455-6677-8899-aabbccddeeff").unwrap();
    assert_eq!(
        u.value(),
        &[
            0xff, 0xee, 0xdd, 0xcc, 0xbb, 0xaa, 0x99, 0x88, 0x77, 0x66, 0x55, 0x44, 0x33, 0x22,
            0x11, 0x00
        ]
    );
}

#[test]
fn invalid_uuids() {
    assert!(Uuid16::from_str("12345678").is_err());
    assert!(Uuid16::from_str("12g4").is_err());
    assert!(Uuid32::from_str("zz").is_err());
    assert!("123456".parse::<Uuid16>().is_err());
}

#[test]
fn trailing_single_character_is_ignored() {
    assert_eq!(Uuid16::from_str("123").unwrap().value(), &[0, 0x12]);
    assert_eq!(Uuid16::from_str("12-").unwrap().value(), &[0, 0x12]);
}

#[test]
fn parse_into_a_buffer() {
    let mut value = [0u8; 3];
    assert!(parse_uuid_into(b"01-02-03", &mut value).is_ok());
    assert_eq!(value, [3, 2, 1]);
    let mut value = [0u8; 1];
    assert!(parse_uuid_into(b"0102", &mut value).is_err());
}
