use riot_wrappers::gnrc::ipv6::{
    address_text_buffer, parse_kernel_pid, split_address_outcome, split_zone, Address, Header,
};
use riot_wrappers::gnrc::netif::address_lengths;

fn addr(octets: [u8; 16]) -> Address {
    Address::from_octets(octets)
}

#[test]
fn address_classification() {
    let unspecified = addr([0; 16]);
    assert!(unspecified.is_unspecified());
    assert!(!unspecified.is_loopback());
    assert!(!unspecified.is_multicast());
    let mut lo = [0u8; 16];
    lo[15] = 1;
    let loopback = addr(lo);
    assert!(loopback.is_loopback());
    assert!(!loopback.is_unspecified());
    assert!(!loopback.is_multicast());
    assert!(!loopback.is_link_local());
    let mut ll = [0u8; 16];
    ll[0] = 0xfe;
    ll[1] = 0x80;
    ll[15] = 7;
    assert!(addr(ll).is_link_local());
    ll[5] = 1;
    assert!(!addr(ll).is_link_local());
    let mut mc = [0u8; 16];
    mc[0] = 0xff;
    mc[1] = 0x02;
    mc[15] = 1;
    let all_nodes = addr(mc);
    assert!(all_nodes.is_multicast());
    assert!(all_nodes.is_link_local());
    assert!(!all_nodes.is_unspecified());
    mc[1] = 0x05;
    assert!(!addr(mc).is_link_local());
    assert_eq!(all_nodes.raw(), &mc_with(0x02));
}

fn mc_with(scope: u8) -> [u8; 16] {
    let mut mc = [0u8; 16];
    mc[0] = 0xff;
    mc[1] = scope;
    mc[15] = 1;
    mc
}

#[test]
fn header_from_wire() {
    let mut wire = [0u8; 44];
    wire[0] = 0x60;
    wire[4] = 0x01;
    wire[5] = 0x02;
    wire[6] = 58;
    wire[7] = 64;
    wire[8] = 0xfe;
    wire[9] = 0x80;
    wire[23] = 1;
    wire[24] = 0xff;
    wire[25] = 0x02;
    wire[39] = 1;
    let h = Header::from_bytes(&wire).unwrap();
    assert_eq!(h.len(), 258);
    assert_eq!(h.next_header(), 58);
    assert_eq!(h.hop_limit(), 64);
    assert_eq!(h.version_trafficclass_flowlabel(), &[0x60, 0, 0, 0]);
    assert!(h.src().is_link_local());
    assert!(h.dst().is_multicast());
    assert!(Header::from_bytes(&wire[..39]).is_none());
}

#[test]
fn kernel_pid_parsing_follows_integer_syntax() {
    assert_eq!(parse_kernel_pid(b"6"), Some(6));
    assert_eq!(parse_kernel_pid(b"+6"), Some(6));
    assert_eq!(parse_kernel_pid(b"-6"), Some(-6));
    assert_eq!(parse_kernel_pid(b"0042"), Some(42));
    assert_eq!(parse_kernel_pid(b"32767"), Some(32767));
    assert_eq!(parse_kernel_pid(b"-32768"), Some(-32768));
    assert_eq!(parse_kernel_pid(b"32768"), None);
    assert_eq!(parse_kernel_pid(b"-32769"), None);
    assert_eq!(parse_kernel_pid(b"99999999999"), None);
    assert_eq!(parse_kernel_pid(b""), None);
    assert_eq!(parse_kernel_pid(b"-"), None);
    assert_eq!(parse_kernel_pid(b"+"), None);
    assert_eq!(parse_kernel_pid(b"6a"), None);
    assert_eq!(parse_kernel_pid(b" 6"), None);
    assert_eq!(parse_kernel_pid(b"--6"), None);
    for s in ["0", "17", "-1", "+300", "32767", "-32768", "32768", "x", "1e3", ""] {
        assert_eq!(parse_kernel_pid(s.as_bytes()), s.parse::<i16>().ok(), "{}", s);
    }
}

#[test]
fn zone_is_split_at_the_first_percent() {
    assert_eq!(split_zone(b"fe80::1%42"), (&b"fe80::1"[..], Some(&b"42"[..])));
    assert_eq!(split_zone(b"fe80::1"), (&b"fe80::1"[..], None));
    assert_eq!(split_zone(b"a%b%c"), (&b"a"[..], Some(&b"b%c"[..])));
    assert_eq!(split_zone(b"%"), (&b""[..], Some(&b""[..])));
}

#[test]
fn split_address_outcomes() {
    let a = addr(mc_with(2));
    let ok = split_address_outcome(Some(a), Some(b"7")).unwrap();
    assert_eq!(ok.0.raw(), &mc_with(2));
    assert_eq!(ok.1, Some(7));
    assert_eq!(split_address_outcome(Some(a), None).unwrap().1, None);
    assert_eq!(
        split_address_outcome(Some(a), Some(b"eth0")).err(),
        Some("Non-numeric interface identifier")
    );
    assert_eq!(split_address_outcome(None, Some(b"eth0")).err(), Some("Unparsable address"));
    assert_eq!(split_address_outcome(None, None).err(), Some("Unparsable address"));
}

#[test]
fn address_text_fits_the_parser_buffer() {
    let buf = address_text_buffer(b"fe80::1").unwrap();
    assert_eq!(&buf[..7], b"fe80::1");
    assert!(buf[7..].iter().all(|b| *b == 0));
    let longest = b"ffff:ffff:ffff:ffff:ffff:ffff:ffff:ffff";
    assert_eq!(longest.len(), 39);
    let buf = address_text_buffer(longest).unwrap();
    assert_eq!(&buf[..39], &longest[..]);
    assert_eq!(buf[39], 0);
    assert!(address_text_buffer(b"ffff:ffff:ffff:ffff:ffff:ffff:ffff:ffff0").is_none());
}

#[test]
fn link_layer_address_lengths() {
    assert_eq!(address_lengths(&[1, 2], &[]).ok(), Some((2, 0)));
    assert_eq!(address_lengths(&[0; 255], &[0; 8]).ok(), Some((255, 8)));
    assert!(address_lengths(&[0; 256], &[]).is_err());
    assert!(address_lengths(&[], &[0; 300]).is_err());
}

#[test]
fn address_text_matches_the_debug_format() {
    let octets = [0xfe, 0x80, 0, 0, 0, 0, 0, 0, 0x02, 0x1a, 0xbc, 0xff, 0xfe, 0x01, 0x23, 0x45];
    let text = Address::from_octets(octets).to_text();
    let expected = format!(
        "{:02x}{:02x}:{:02x}{:02x}:{:02x}{:02x}:{:02x}{:02x}:{:02x}{:02x}:{:02x}{:02x}:{:02x}{:02x}:{:02x}{:02x}",
        octets[0], octets[1], octets[2], octets[3], octets[4], octets[5], octets[6], octets[7],
        octets[8], octets[9], octets[10], octets[11], octets[12], octets[13], octets[14], octets[15]
    );
    assert_eq!(&text[..], expected.as_bytes());
    assert_eq!(&text[..], b"fe80:0000:0000:0000:021a:bcff:fe01:2345");
}

#[test]
fn header_flow_label_text() {
    let mut wire = [0u8; 40];
    wire[0] = 0x6a;
    wire[1] = 0xbc;
    wire[2] = 0x0d;
    wire[3] = 0xef;
    let h = Header::from_bytes(&wire).unwrap();
    assert_eq!(&h.version_trafficclass_flowlabel_text(), b"6abc0def");
}
