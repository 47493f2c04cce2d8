use riot_wrappers::helpers::slice_to_cstr;
use riot_wrappers::libc::{strlen, CStr};

#[test]
fn test() {
    let a: CStr = CStr::from_bytes_with_nul_unchecked("Hello\0".as_bytes());
    assert_eq!(a.to_bytes(), b"Hello");
}

#[test]
fn cstr_keeps_the_null_byte_apart() {
    let a = CStr::from_bytes_with_nul_unchecked(b"RIOT\0");
    assert_eq!(a.to_bytes_with_nul(), b"RIOT\0");
    assert_eq!(a.to_bytes(), b"RIOT");
}

#[test]
fn empty_cstr() {
    let a = CStr::from_bytes_with_nul_unchecked(b"\0");
    assert_eq!(a.to_bytes(), b"");
    assert_eq!(a.to_str().unwrap(), "");
}

#[test]
fn cstr_to_str_of_utf8() {
    let a = CStr::from_bytes_with_nul_unchecked("grüß\0".as_bytes());
    assert_eq!(a.to_str().unwrap(), "grüß");
}

#[test]
fn cstr_to_str_rejects_invalid_utf8() {
    let a = CStr::from_bytes_with_nul_unchecked(&[0x66, 0xff, 0x66, 0]);
    assert!(a.to_str().is_err());
}

#[test]
fn strlen_counts_up_to_the_first_null() {
    let bytes: [i8; 6] = [0x61, 0x62, 0x63, 0, 0x64, 0];
    assert_eq!(strlen(&bytes), 3);
    let empty: [i8; 1] = [0];
    assert_eq!(strlen(&empty), 0);
}

#[test]
fn slice_to_cstr_stops_at_the_first_null() {
    let buffer = b"eth0\0\0\0garbage";
    let s = slice_to_cstr(buffer).unwrap();
    assert_eq!(s.to_bytes(), b"eth0");
    assert_eq!(s.to_bytes_with_nul(), b"eth0\0");
}

#[test]
fn slice_to_cstr_without_null_is_an_error() {
    assert!(slice_to_cstr(b"no terminator").is_err());
    assert!(slice_to_cstr(b"").is_err());
}
