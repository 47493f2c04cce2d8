use riot_wrappers::delay::{XTimerTicks, XTIMER_BACKOFF};

#[test]
fn ticks_from_durations() {
    let t = XTimerTicks::<u32>::from_micros(1500);
    assert_eq!(t.get_low32(), 1500);
    assert_eq!(t.get_high32(), 0);
    let t = XTimerTicks::<u32>::from_millis(3);
    assert_eq!(t.get_low32(), 3000);
    let t = XTimerTicks::<u64>::from_millis(5_000_000);
    assert_eq!(t.get_high32(), 1);
    assert_eq!(t.get_low32(), 705_032_704);
}

#[test]
fn ticks_halves_recombine() {
    let t = XTimerTicks::<u64>::from_micros_unchecked(0x1_2345_6789);
    assert_eq!(t.get_high32(), 0x1);
    assert_eq!(t.get_low32(), 0x2345_6789);
    let recombined = ((t.get_high32() as u64) << 32) | t.get_low32() as u64;
    assert_eq!(recombined, 0x1_2345_6789);
}

#[test]
fn try_from_respects_the_tick_type() {
    assert!(XTimerTicks::<u16>::try_from_micros(65_535).is_some());
    assert!(XTimerTicks::<u16>::try_from_micros(65_536).is_none());
    assert!(XTimerTicks::<u16>::try_from_millis(66).is_none());
    assert_eq!(XTimerTicks::<u16>::try_from_millis(65).unwrap().get_low32(), 65_000);
    assert!(XTimerTicks::<u32>::try_from_millis(4_294_968).is_none());
    assert!(XTimerTicks::<u64>::try_from_micros(u64::MAX / 1_000_000).is_some());
    assert!(XTimerTicks::<u64>::try_from_micros(u64::MAX).is_none());
    assert!(XTimerTicks::<u64>::try_from_millis(u64::MAX).is_none());
}

#[test]
fn unchecked_and_backoff() {
    assert_eq!(XTimerTicks::<u64>::from_millis_unchecked(2).get_low32(), 2000);
    assert_eq!(XTimerTicks::<u64>::backoff().get_low32() as u64, XTIMER_BACKOFF);
}

#[test]
fn narrow_ticks_have_no_high_half() {
    assert_eq!(XTimerTicks::<u32>::from_micros(4_000_000_000).get_high32(), 0);
    assert_eq!(XTimerTicks::<u16>::from_micros(65_535).get_high32(), 0);
}
