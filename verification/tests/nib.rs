use riot_wrappers::gnrc::ipv6::Address;
use riot_wrappers::gnrc::nib::{ArState, NcEntry, NudState};

#[test]
fn nud_states_from_c() {
    assert_eq!(NudState::from_c(0), Some(NudState::Unmanaged));
    assert_eq!(NudState::from_c(1), Some(NudState::Unreachable));
    assert_eq!(NudState::from_c(2), Some(NudState::Incomplete));
    assert_eq!(NudState::from_c(3), Some(NudState::Stale));
    assert_eq!(NudState::from_c(4), Some(NudState::Delay));
    assert_eq!(NudState::from_c(5), Some(NudState::Probe));
    assert_eq!(NudState::from_c(6), Some(NudState::Reachable));
    assert_eq!(NudState::from_c(7), None);
}

#[test]
fn nud_state_labels() {
    assert_eq!(NudState::Unmanaged.label(), "unmanaged");
    assert_eq!(NudState::Unreachable.label(), "unreachable");
    assert_eq!(NudState::Incomplete.label(), "incomplete");
    assert_eq!(NudState::Stale.label(), "stale");
    assert_eq!(NudState::Delay.label(), "delay");
    assert_eq!(NudState::Probe.label(), "probe");
    assert_eq!(NudState::Reachable.label(), "reachable");
}

#[test]
fn ar_states_from_c_and_labels() {
    assert_eq!(ArState::from_c(0x0000), Some(ArState::Gc));
    assert_eq!(ArState::from_c(0x0200), Some(ArState::Tentative));
    assert_eq!(ArState::from_c(0x0400), Some(ArState::Registered));
    assert_eq!(ArState::from_c(0x0600), Some(ArState::Manual));
    assert_eq!(ArState::from_c(0x0100), None);
    assert_eq!(ArState::Gc.label(), "GC");
    assert_eq!(ArState::Tentative.label(), "tentative");
    assert_eq!(ArState::Registered.label(), "registered");
    assert_eq!(ArState::Manual.label(), "manual");
}

#[test]
fn neighbor_cache_entry_fields() {
    let mut octets = [0u8; 16];
    octets[0] = 0xfe;
    octets[1] = 0x80;
    octets[15] = 2;
    // interface 3, router, stale, registered
    let info: u16 = (3 << 4) | 0x0008 | 0x0003 | 0x0400;
    let e = NcEntry::new(Address::from_octets(octets), vec![0x02, 0x11, 0x22], info);
    assert_eq!(e.iface(), Some(3));
    assert!(e.is_router());
    assert_eq!(e.nud_state(), Some(NudState::Stale));
    assert_eq!(e.ar_state(), Some(ArState::Registered));
    assert_eq!(e.l2addr(), &[0x02, 0x11, 0x22]);
    assert!(e.ipv6_addr().is_link_local());
}

#[test]
fn neighbor_cache_entry_without_interface() {
    let e = NcEntry::new(Address::from_octets([0; 16]), vec![], 0x0007 | 0x0600);
    assert_eq!(e.iface(), None);
    assert!(!e.is_router());
    assert_eq!(e.nud_state(), None);
    assert_eq!(e.ar_state(), Some(ArState::Manual));
    assert_eq!(e.l2addr(), &[] as &[u8]);
}

#[test]
fn every_info_word_has_an_ar_state() {
    for info in 0..=u16::MAX {
        let e = NcEntry::new(Address::from_octets([0; 16]), vec![], info);
        assert!(e.ar_state().is_some());
    }
}
