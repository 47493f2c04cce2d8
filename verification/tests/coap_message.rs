use riot_wrappers::coap_message::impl_0_3::Error;
use riot_wrappers::coap_message::{MessageOption, OptionsIterator, ResponseMessage};
use riot_wrappers::errno;
use riot_wrappers::error::NumericError;
use riot_wrappers::gcoap::PacketBuffer;

#[test]
fn message_option_accessors() {
    let o = MessageOption::new(11, b"sensors");
    assert_eq!(o.number(), 11);
    assert_eq!(o.value(), b"sensors");
}

#[test]
fn options_iterator_hands_out_in_order() {
    let mut it = OptionsIterator::new(vec![(11, &b"a"[..]), (11, &b"bc"[..]), (60, &b""[..])]);
    let first = it.next().unwrap();
    assert_eq!((first.number(), first.value()), (11, &b"a"[..]));
    let second = it.next().unwrap();
    assert_eq!((second.number(), second.value()), (11, &b"bc"[..]));
    let third = it.next().unwrap();
    assert_eq!((third.number(), third.value()), (60, &b""[..]));
    assert!(it.next().is_none());
    assert!(it.next().is_none());
}

#[test]
fn error_from_numeric() {
    let e: Error = NumericError::from_constant(errno::ENOSPC).into();
    assert_eq!(e.0.number(), -28);
}

#[test]
fn response_without_payload_ends_at_the_options() {
    let mut buf = [0u8; 32];
    let pkt = PacketBuffer::new(&mut buf, 8, 24).unwrap();
    let mut msg = ResponseMessage::new(pkt);
    msg.set_code(0x45);
    assert_eq!(msg.message().get_code_raw(), 0x45);
    assert!(msg.check_add_option().is_ok());
    assert!(msg.option_added(10, 22));
    assert_eq!(msg.available_space(), 22);
    assert_eq!(msg.finish(), 10);
}

#[test]
fn response_with_payload_counts_marker_and_payload() {
    let mut buf = [0u8; 32];
    let pkt = PacketBuffer::new(&mut buf, 8, 24).unwrap();
    let mut msg = ResponseMessage::new(pkt);
    msg.set_payload(b"hello").unwrap();
    assert_eq!(msg.finish(), 8 + 1 + 5);
    assert_eq!(&msg.message().payload()[..6], b"\xffhello");
    let e = msg.check_add_option().unwrap_err();
    assert_eq!(e.0.number(), -(errno::EINVAL as isize));
    msg.truncate(2).unwrap();
    assert_eq!(msg.finish(), 8 + 1 + 2);
}

#[test]
fn payload_too_large_is_einval() {
    let mut buf = [0u8; 12];
    let pkt = PacketBuffer::new(&mut buf, 8, 4).unwrap();
    let mut msg = ResponseMessage::new(pkt);
    let e = msg.set_payload(b"four").unwrap_err();
    assert_eq!(e.0.number(), -22);
    assert!(msg.set_payload(b"thr").is_ok());
}

#[test]
fn truncate_needs_a_payload_and_room() {
    let mut buf = [0u8; 16];
    let pkt = PacketBuffer::new(&mut buf, 8, 8).unwrap();
    let mut msg = ResponseMessage::new(pkt);
    assert_eq!(msg.truncate(1).unwrap_err().0.number(), -22);
    msg.set_payload(b"abc").unwrap();
    assert_eq!(msg.truncate(8).unwrap_err().0.number(), -22);
    assert!(msg.truncate(7).is_ok());
    assert_eq!(msg.finish(), 16);
}
