use racing_autosplit::game_time::GameTime;

#[test]
fn zero_is_no_time() {
    assert_eq!(GameTime::zero().milliseconds(), 0);
    assert_eq!(GameTime::zero(), GameTime::from_milliseconds(0));
    assert_ne!(GameTime::zero(), GameTime::from_milliseconds(1));
    assert_ne!(GameTime::zero(), GameTime::from_milliseconds(-1));
}

#[test]
fn a_centisecond_is_ten_milliseconds() {
    assert_eq!(GameTime::from_centiseconds(0), Some(GameTime::zero()));
    assert_eq!(GameTime::from_centiseconds(1), Some(GameTime::from_milliseconds(10)));
    assert_eq!(GameTime::from_centiseconds(12_345), Some(GameTime::from_milliseconds(123_450)));
    assert_eq!(GameTime::from_centiseconds(-7), Some(GameTime::from_milliseconds(-70)));
}

#[test]
fn centiseconds_beyond_the_range_give_nothing() {
    let most = i64::MAX / 10;
    assert_eq!(GameTime::from_centiseconds(most), Some(GameTime::from_milliseconds(most * 10)));
    assert_eq!(GameTime::from_centiseconds(most + 1), None);
    assert_eq!(GameTime::from_centiseconds(i64::MAX), None);
    let least = i64::MIN / 10;
    assert_eq!(GameTime::from_centiseconds(least), Some(GameTime::from_milliseconds(least * 10)));
    assert_eq!(GameTime::from_centiseconds(least - 1), None);
    assert_eq!(GameTime::from_centiseconds(i64::MIN), None);
}

#[test]
fn checked_add_adds_or_gives_nothing() {
    let a = GameTime::from_milliseconds(61_230);
    let b = GameTime::from_milliseconds(8_770);
    assert_eq!(a.checked_add(b), Some(GameTime::from_milliseconds(70_000)));
    assert_eq!(a.checked_add(GameTime::from_milliseconds(-61_230)), Some(GameTime::zero()));
    let most = GameTime::from_milliseconds(i64::MAX);
    assert_eq!(most.checked_add(GameTime::zero()), Some(most));
    assert_eq!(most.checked_add(GameTime::from_milliseconds(1)), None);
    let least = GameTime::from_milliseconds(i64::MIN);
    assert_eq!(least.checked_add(GameTime::from_milliseconds(-1)), None);
    assert_eq!(least.checked_add(most), Some(GameTime::from_milliseconds(-1)));
}

#[test]
fn plus_adds() {
    let a = GameTime::from_milliseconds(1_000);
    let b = GameTime::from_milliseconds(234);
    assert_eq!(a.plus(b).milliseconds(), 1_234);
    assert_eq!(b.plus(a), a.plus(b));
}
