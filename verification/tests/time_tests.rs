use house_display::timefmt::u32_to_dec;
use house_display::timefmt::u32_to_pad2;
use house_display::timefmt::u32_to_pad4;
use house_display::TimeSnapshot;

#[test]
fn decimal_rendering() {
    assert_eq!("0", u32_to_dec(0));
    assert_eq!("7", u32_to_dec(7));
    assert_eq!("42", u32_to_dec(42));
    assert_eq!("1234", u32_to_dec(1234));
}

#[test]
fn padded_rendering() {
    assert_eq!("00", u32_to_pad2(0));
    assert_eq!("07", u32_to_pad2(7));
    assert_eq!("59", u32_to_pad2(59));
    assert_eq!("0042", u32_to_pad4(42));
    assert_eq!("2019", u32_to_pad4(2019));
}

#[test]
fn decomposition_single_digit_minute() {
    let t = TimeSnapshot::from_parts(2019, 5, 3, 7, 5);
    assert_eq!("201905", t.year_month);
    assert_eq!("3", t.day);
    assert_eq!("7", t.hour);
    assert_eq!('0', t.min_tens);
    assert_eq!('5', t.min_ones);
}

#[test]
fn decomposition_two_digit_fields() {
    let t = TimeSnapshot::from_parts(2026, 12, 31, 23, 59);
    assert_eq!("202612", t.year_month);
    assert_eq!("31", t.day);
    assert_eq!("23", t.hour);
    assert_eq!('5', t.min_tens);
    assert_eq!('9', t.min_ones);
}

#[test]
fn minute_digits_concatenate_to_padded_minute() {
    for minute in 0..60u32 {
        let t = TimeSnapshot::from_parts(2020, 1, 1, 0, minute);
        let joined = format!("{}{}", t.min_tens, t.min_ones);
        assert_eq!(format!("{:02}", minute), joined);
    }
}

#[test]
fn now_is_well_shaped() {
    let t = TimeSnapshot::now().expect("the clock's year fits four digits");
    assert_eq!(6, t.year_month.chars().count());
    assert!(t.year_month.chars().all(|c| c.is_ascii_digit()));
    assert!(!t.day.is_empty() && t.day.chars().all(|c| c.is_ascii_digit()));
    assert!(!t.hour.is_empty() && t.hour.chars().all(|c| c.is_ascii_digit()));
    assert!(t.min_tens.is_ascii_digit());
    assert!(t.min_ones.is_ascii_digit());
}

#[test]
fn clock_year_outside_four_digits_yields_no_snapshot() {
    assert!(TimeSnapshot::from_clock(-1, 1, 1, 0, 0).is_none());
    assert!(TimeSnapshot::from_clock(10000, 1, 1, 0, 0).is_none());
    let t = TimeSnapshot::from_clock(2019, 5, 3, 7, 5).unwrap();
    assert_eq!("201905", t.year_month);
    assert_eq!("3", t.day);
    assert_eq!("7", t.hour);
    assert_eq!('0', t.min_tens);
    assert_eq!('5', t.min_ones);
}
