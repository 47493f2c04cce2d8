use riot_wrappers::i2c::impl_1::{transaction_progress, TransactionProgress};
use riot_wrappers::gnrc::nettype::{nettype_label, NetTypeLabel, NetTypeNumbers};
use riot_wrappers::bluetil::{Ad, Error as BluetilError, BLUETIL_AD_NOMEM, BLUETIL_AD_NOTFOUND};
use riot_wrappers::dac::{DACError, DACLine};
use riot_wrappers::error::NumericError;
use riot_wrappers::gnrc::icmpv6::EchoType;
use riot_wrappers::gnrc::netreg::{Command, GNRC_NETAPI_MSG_TYPE_RCV, GNRC_NETAPI_MSG_TYPE_SND};
use riot_wrappers::gnrc_util::{udp_roundtrip_ports, NetifRoundtripData};
use riot_wrappers::gpio::{level_is_high, InOutMode, InputMode, OutputMode, GPIO};
use riot_wrappers::i2c::impl_0_2::{check_acquire, check_read, check_write, Error as I2cError};
use riot_wrappers::i2c::impl_1::{
    plan_transaction, Direction, Error as I2cError1, ErrorKind, NoAcknowledgeSource, Step,
    I2C_NOSTART, I2C_NOSTOP,
};
use riot_wrappers::i2c::I2CDevice;
use riot_wrappers::led::LED;
use riot_wrappers::main_module::Termination;
use riot_wrappers::nanocoap_sock::{
    connect_outcome, delete_outcome, next_msg_id, request_outcome, server_outcome,
    NanocoapClientErrors, NanocoapServer, NanocoapServerErrors,
};
use riot_wrappers::pwm::{PWMChannelError, PWMDevice, PWMMode, PwmInitError};
use riot_wrappers::thread::KernelPID;
use riot_wrappers::errno;

#[test]
fn pwm_modes() {
    assert_eq!(PWMMode::Left.to_c(), 0);
    assert_eq!(PWMMode::Right.to_c(), 1);
    assert_eq!(PWMMode::Center.to_c(), 2);
}

#[test]
fn pwm_init_and_channels() {
    assert_eq!(PWMDevice::<2>::from_init_result(0, 0, 255).err(), Some(PwmInitError::Other));
    let mut dev = PWMDevice::<2>::from_init_result(1, 1000, 255).unwrap();
    assert_eq!(dev.dev(), 1);
    assert_eq!(dev.get_period(), 1000);
    assert_eq!(dev.get_max_duty(), 255);
    assert_eq!(dev.get_channel(2, 2).err(), Some(PWMChannelError::Unavailable));
    dev.set_duty(dev.get_channel(1, 2).unwrap(), 100);
    assert_eq!(dev.get_duty(dev.get_channel(1, 2).unwrap()), 100);
    assert_eq!(dev.get_duty(dev.get_channel(0, 2).unwrap()), 0);
    dev.set_duty(dev.get_channel(0, 2).unwrap(), 7);
    assert_eq!(dev.get_duty(dev.get_channel(0, 2).unwrap()), 7);
    assert_eq!(dev.get_duty(dev.get_channel(1, 2).unwrap()), 100);
    // a channel the device has but that is not cached is ignored
    dev.set_duty(dev.get_channel(3, 4).unwrap(), 9);
    assert_eq!(dev.get_duty(dev.get_channel(1, 4).unwrap()), 100);
    let plain = PWMDevice::<1>::new_without_init(3, 50, 1023);
    assert_eq!(plain.get_channel(0, 1).unwrap().channel(), 0);
    assert_eq!(plain.get_period(), 50);
}

#[test]
fn gpio_modes_and_pins() {
    assert_eq!(InputMode::In.to_c(), 0);
    assert_eq!(InputMode::InPullDown.to_c(), 1);
    assert_eq!(InputMode::InPullUp.to_c(), 2);
    assert_eq!(OutputMode::Out.to_c(), 3);
    assert_eq!(OutputMode::OpenDrain.to_c(), 4);
    assert_eq!(OutputMode::OpenDrainPullUp.to_c(), 5);
    assert_eq!(InOutMode::OpenDrain.to_c(), 4);
    assert_eq!(InOutMode::OpenDrainPullUp.to_c(), 5);
    assert!(GPIO::from_c(u32::MAX).is_none());
    let pin = GPIO::from_c(0x23).unwrap();
    assert_eq!(pin.to_c(), 0x23);
    let out = pin.configure_as_output(0).unwrap();
    assert_eq!(out.to_c(), 0x23);
    let pin = out.deconfigured();
    let err = pin.configure_as_input(-5).err().unwrap();
    assert_eq!(err.number(), -5);
    let input = GPIO::from_c(4).unwrap().configure_as_input(0).unwrap();
    assert_eq!(input.deconfigured().to_c(), 4);
    let inout = GPIO::from_c(5).unwrap().configure_as_inout(1).unwrap();
    assert_eq!(inout.to_c(), 5);
    assert!(level_is_high(1));
    assert!(level_is_high(-1));
    assert!(!level_is_high(0));
}

#[test]
fn i2c_v02_errors() {
    let dev = I2CDevice::new(1);
    assert_eq!(dev.dev(), 1);
    assert_eq!(check_acquire(0), Ok(()));
    assert_eq!(check_acquire(-16), Err(I2cError::AcquireError));
    assert_eq!(check_write(0), Ok(()));
    assert_eq!(check_write(-6), Err(I2cError::WriteError(-6)));
    assert_eq!(check_read(-5), Err(I2cError::ReadError(-5)));
}

#[test]
fn i2c_error_kinds() {
    let kind = |e: isize| I2cError1(NumericError::from_constant(e)).kind();
    assert_eq!(kind(errno::EIO), ErrorKind::NoAcknowledge(NoAcknowledgeSource::Data));
    assert_eq!(kind(errno::ENXIO), ErrorKind::NoAcknowledge(NoAcknowledgeSource::Address));
    assert_eq!(kind(errno::EAGAIN), ErrorKind::ArbitrationLoss);
    assert_eq!(kind(errno::ETIMEDOUT), ErrorKind::Other);
    assert_eq!(kind(errno::EINVAL), ErrorKind::Other);
    assert_eq!(kind(errno::EOPNOTSUPP), ErrorKind::Other);
    assert_eq!(kind(errno::ENOMEM), ErrorKind::Other);
}

#[test]
fn i2c_transaction_plan() {
    let steps = plan_transaction(&[Direction::Write, Direction::Write, Direction::Read], 0x42);
    assert_eq!(
        steps,
        vec![
            Step { address: 0x42, flags: I2C_NOSTOP },
            Step { address: 0, flags: I2C_NOSTART | I2C_NOSTOP },
            Step { address: 0x42, flags: 0 },
        ]
    );
    let single = plan_transaction(&[Direction::Read], 0x10);
    assert_eq!(single, vec![Step { address: 0x10, flags: 0 }]);
    let steps = plan_transaction(
        &[Direction::Read, Direction::Write, Direction::Write, Direction::Read, Direction::Read],
        0x11,
    );
    assert_eq!(steps.last().unwrap().flags & I2C_NOSTOP, 0);
    assert!(steps[..4].iter().all(|s| s.flags & I2C_NOSTOP != 0));
    assert_eq!(steps[4], Step { address: 0, flags: I2C_NOSTART });
}

#[test]
fn leds() {
    let _l: LED<0> = LED::new();
    let _l: LED<7> = LED::new_unchecked();
    assert!(LED::<3>::new_checked(true).is_ok());
    assert!(LED::<3>::new_checked(false).is_err());
}

#[test]
fn dac_init_results() {
    assert_eq!(DACLine::from_init_result(2, 0).unwrap().line(), 2);
    assert_eq!(DACLine::from_init_result(2, -1).err(), Some(DACError::NoLine));
    assert_eq!(DACLine::from_init_result(2, -7).err(), Some(DACError::Unknown));
    assert_eq!(DACLine::new_without_init(9).line(), 9);
}

#[test]
fn bluetil_errors_and_buffers() {
    let ad = Ad::from_buffer([1u8, 2, 3]);
    assert_eq!(ad.destroy(), [1, 2, 3]);
    let notfound = NumericError::from_constant(-BLUETIL_AD_NOTFOUND);
    assert_eq!(BluetilError::from_numeric(notfound), BluetilError::NotFound);
    let nomem = NumericError::from_constant(-BLUETIL_AD_NOMEM);
    assert_eq!(BluetilError::from_numeric(nomem), BluetilError::NoMem);
}

#[test]
fn nanocoap_outcomes() {
    assert_eq!(request_outcome(12).ok(), Some(12));
    assert_eq!(request_outcome(0).ok(), Some(0));
    assert_eq!(request_outcome(-1).err(), Some(NanocoapClientErrors::RequestErr));
    assert_eq!(delete_outcome(0).ok(), Some(()));
    assert_eq!(delete_outcome(-2).err(), Some(NanocoapClientErrors::RequestErr));
    assert_eq!(connect_outcome(0).ok(), Some(()));
    assert_eq!(connect_outcome(-22).err(), Some(NanocoapClientErrors::CreateSockErr));
    assert_eq!(server_outcome(0).ok(), Some(()));
    assert_eq!(server_outcome(-2).ok(), Some(()));
    assert_eq!(
        server_outcome(-1).err(),
        Some(NanocoapServerErrors::BindingLocalOrDroppedPacketsErr)
    );
    assert_eq!(next_msg_id(41), 42);
    assert_eq!(next_msg_id(65534), 65535);
    assert_eq!(next_msg_id(65535), 0);
}

#[test]
fn netreg_commands_and_echo_types() {
    assert_eq!(Command::from_msg_type(GNRC_NETAPI_MSG_TYPE_RCV), Command::Receive);
    assert_eq!(Command::from_msg_type(GNRC_NETAPI_MSG_TYPE_SND), Command::Send);
    assert_eq!(u32::from(EchoType::Request), 128);
    assert_eq!(u32::from(EchoType::Reply), 129);
}

#[test]
fn roundtrip_data_keeps_the_interface() {
    let d = NetifRoundtripData::new(KernelPID::new(7));
    assert_eq!(d.pid().unwrap().pid(), 7);
    assert!(NetifRoundtripData::new(None).pid().is_none());
}

#[test]
fn termination_status() {
    assert_eq!(().report(), 0);
    assert_eq!(3i32.report(), 3);
    assert_eq!(Ok::<(), &str>(()).report(), 0);
    assert_eq!(Err::<(), &str>("broken").report(), 1);
}

#[test]
fn nanocoap_server_keeps_its_endpoint() {
    let mut server = NanocoapServer::new([0u8; 18]);
    server.local()[0] = 10;
    assert_eq!(server.local()[0], 10);
}

#[test]
fn board_name_from_the_build() {
    assert_eq!(riot_wrappers::board(b"native\0"), "native");
    assert_eq!(riot_wrappers::board(b"nrf52840dk\0"), "nrf52840dk");
}

#[test]
fn udp_ports_to_respond_with() {
    assert_eq!(udp_roundtrip_ports(&[0x16, 0x33, 0xc0, 0x01, 0, 8]), Some((5683, 49153)));
    assert_eq!(udp_roundtrip_ports(&[0, 0, 0x16, 0x33]), None);
    assert_eq!(udp_roundtrip_ports(&[0x16, 0x33, 0, 0]), None);
}

#[test]
fn transaction_progress_stops_at_the_first_failure() {
    assert!(matches!(transaction_progress(0, 3, 0), TransactionProgress::Continue));
    assert!(matches!(transaction_progress(2, 3, 5), TransactionProgress::Done));
    match transaction_progress(1, 3, -6) {
        TransactionProgress::Failed(e) => assert_eq!(e.0.number(), -6),
        _ => panic!("a negative code fails"),
    }
}

#[test]
fn nettype_labels() {
    let numbers = NetTypeNumbers {
        tx_sync: -2,
        netif: -1,
        undef: 0,
        numof: 6,
        named: vec![(2, "IPV6"), (4, "UDP"), (2, "shadowed")],
    };
    assert_eq!(nettype_label(-2, &numbers), NetTypeLabel::Named("TX_SYNC"));
    assert_eq!(nettype_label(-1, &numbers), NetTypeLabel::Named("NETIF"));
    assert_eq!(nettype_label(0, &numbers), NetTypeLabel::Named("undefined"));
    assert_eq!(nettype_label(2, &numbers), NetTypeLabel::Named("IPV6"));
    assert_eq!(nettype_label(4, &numbers), NetTypeLabel::Named("UDP"));
    assert_eq!(nettype_label(3, &numbers), NetTypeLabel::Unknown(3));
    assert_eq!(nettype_label(6, &numbers), NetTypeLabel::Invalid(6));
    assert_eq!(nettype_label(-7, &numbers), NetTypeLabel::Invalid(-7));
}
