use riot_wrappers::msg::v2::{
    split_off, MessageSemantics, NoConfiguredMessages, ReceivePort, ReceivedMessage, SendPort,
};
use riot_wrappers::msg::{
    reply_outcome, send_outcome, EmptyMsg, Msg, MsgSendError, MsgSender, MsgT, NumericMsg,
    OpaqueMsg, WrapsMsgT,
};
use riot_wrappers::thread::KernelPID;

#[test]
fn sender_of_a_pid() {
    assert_eq!(MsgSender::from_pid(33), MsgSender::ISR);
    assert_eq!(MsgSender::from_pid(0), MsgSender::Invalid);
    assert_eq!(MsgSender::from_pid(-1), MsgSender::Invalid);
    assert_eq!(MsgSender::from_pid(34), MsgSender::Invalid);
    match MsgSender::from_pid(5) {
        MsgSender::Thread(p) => assert_eq!(p.pid(), 5),
        _ => panic!("thread expected"),
    }
}

#[test]
fn kernel_pid_range() {
    assert!(KernelPID::new(0).is_none());
    assert_eq!(KernelPID::new(1).unwrap().pid(), 1);
    assert_eq!(KernelPID::new(32).unwrap().pid(), 32);
    assert!(KernelPID::new(33).is_none());
}

#[test]
fn send_and_reply_outcomes() {
    assert_eq!(send_outcome(1), Ok(()));
    assert_eq!(send_outcome(0), Err(MsgSendError::ReceiverNotWaiting));
    assert_eq!(send_outcome(-1), Err(MsgSendError::InvalidPID));
    assert_eq!(reply_outcome(1), Ok(()));
    assert_eq!(reply_outcome(-1), Err(()));
}

#[test]
fn message_values() {
    let m = NumericMsg::new(0x1234, 42);
    assert_eq!(m.get_type(), 0x1234);
    assert_eq!(m.get_value(), 42);
    let raw = m.extract();
    assert_eq!(raw, MsgT { sender_pid: 0, type_: 0x1234, value: 42 });
    let opaque = OpaqueMsg::from_raw(MsgT { sender_pid: 3, type_: 7, value: 99 });
    assert_eq!(opaque.get_type(), 7);
    match opaque.get_sender() {
        MsgSender::Thread(p) => assert_eq!(p.pid(), 3),
        _ => panic!("thread expected"),
    }
    let numeric = NumericMsg::recognize(opaque);
    assert_eq!(numeric.get_value(), 99);
    let empty = EmptyMsg::new(5);
    assert_eq!(empty.get_type(), 5);
    assert_eq!(empty.view().value, 0);
}

#[test]
fn split_off_reserves_type_numbers() {
    let own = KernelPID::new(4).unwrap();
    let semantics = NoConfiguredMessages;
    assert!(!semantics.typeno_is_known(1));
    let (semantics, _receive_num, send_num): (_, ReceivePort<u32, 1>, SendPort<u32, 1>) =
        split_off(semantics, own);
    let (semantics, _receive_bool, _send_bool): (_, ReceivePort<bool, 2>, SendPort<bool, 2>) =
        split_off(semantics, own);
    assert!(semantics.typeno_is_known(1));
    assert!(semantics.typeno_is_known(2));
    assert!(!semantics.typeno_is_known(3));
    assert_eq!(send_num.destination().pid(), 4);
}

#[test]
fn try_send_hands_back_undelivered_data() {
    let (_s, _r, send): (_, ReceivePort<u32, 9>, SendPort<u32, 9>) =
        split_off(NoConfiguredMessages, KernelPID::new(2).unwrap());
    assert_eq!(send.try_send_outcome(1, 17), Ok(()));
    assert_eq!(send.try_send_outcome(0, 17), Err(17));
    assert_eq!(send.try_send_outcome(-1, 18), Err(18));
}

#[test]
fn received_messages_decode_on_their_port() {
    let (semantics, numbers, _send): (_, ReceivePort<u32, 1>, SendPort<u32, 1>) =
        split_off(NoConfiguredMessages, KernelPID::new(2).unwrap());
    let (semantics, flags, _send): (_, ReceivePort<bool, 2>, SendPort<bool, 2>) =
        split_off(semantics, KernelPID::new(2).unwrap());
    let incoming = MsgT { sender_pid: 6, type_: 2, value: 1 };
    let msg = ReceivedMessage::new(&semantics, incoming);
    let msg = match msg.decode(&numbers) {
        Ok(_) => panic!("type 2 must not decode on port 1"),
        Err(m) => m,
    };
    match msg.decode(&flags) {
        Ok((MsgSender::Thread(p), v)) => {
            assert_eq!(p.pid(), 6);
            assert_eq!(v, 1);
        }
        _ => panic!("type 2 decodes on port 2"),
    }
    assert!(ReceivedMessage::try_receive_outcome(&semantics, 0, incoming).is_none());
    let got = ReceivedMessage::try_receive_outcome(&semantics, 1, incoming).unwrap();
    assert_eq!(got.sender(), MsgSender::from_pid(6));
}
