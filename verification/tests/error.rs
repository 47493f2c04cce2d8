use riot_wrappers::errno;
use riot_wrappers::error::{NbError, NegativeErrorExt, NumericError};

#[test]
fn from_constant_flips_the_sign() {
    let e = NumericError::from_constant(errno::EINVAL);
    assert_eq!(e.number(), -22);
    let e = NumericError::from_constant(errno::ENOMEM);
    assert_eq!(e.number(), -12);
}

#[test]
fn negative_to_error_on_isize() {
    assert_eq!(5isize.negative_to_error().unwrap(), 5);
    assert_eq!(0isize.negative_to_error().unwrap(), 0);
    assert_eq!((-5isize).negative_to_error().unwrap_err().number(), -5);
}

#[test]
fn negative_to_error_on_i32() {
    assert_eq!(17i32.negative_to_error().unwrap(), 17);
    let e = (-(errno::EAGAIN as i32)).negative_to_error().unwrap_err();
    assert_eq!(e, NumericError::from_constant(errno::EAGAIN));
}

#[test]
fn negative_to_error_on_i64() {
    assert_eq!(1234567890123i64.negative_to_error().unwrap(), 1234567890123);
    assert_eq!((-110i64).negative_to_error().unwrap_err().number(), -110);
}

#[test]
fn again_is_wouldblock() {
    assert_eq!(NumericError::from_constant(errno::EAGAIN).again_is_wouldblock(), NbError::WouldBlock);
    assert_eq!(
        NumericError::from_constant(errno::EIO).again_is_wouldblock(),
        NbError::Other(NumericError::from_constant(errno::EIO))
    );
}
