use banana_clicker::driver::{interval_micros, step_action};
use banana_clicker::format::{dec_string, tenths_string};
use banana_clicker::icon::icon_from_bytes;
use banana_clicker::state::ClickerState;

#[test]
fn new_state_is_idle_at_default_rate() {
    let s = ClickerState::new();
    assert!(!s.is_active());
    assert_eq!(s.rate_tenths(), 500);
    assert_eq!(s.status(), "Paused. Press START or F1 to resume.");
}

#[test]
fn set_rate_clamps_below_range_to_lowest() {
    let mut s = ClickerState::new();
    s.set_rate(0);
    assert_eq!(s.rate_tenths(), 10);
    s.set_rate(-25);
    assert_eq!(s.rate_tenths(), 10);
}

#[test]
fn set_rate_clamps_above_range_to_highest() {
    let mut s = ClickerState::new();
    s.set_rate(20000);
    assert_eq!(s.rate_tenths(), 10000);
    s.set_rate(i64::MAX);
    assert_eq!(s.rate_tenths(), 10000);
}

#[test]
fn set_rate_keeps_a_value_in_range_and_the_activity() {
    let mut s = ClickerState::new();
    s.toggle();
    s.set_rate(1234);
    assert_eq!(s.rate_tenths(), 1234);
    assert!(s.is_active());
}

#[test]
fn toggle_twice_restores_activity_and_status() {
    let mut s = ClickerState::new();
    let before_active = s.is_active();
    let before_status = s.status().to_string();
    s.toggle();
    assert!(s.is_active());
    s.toggle();
    assert_eq!(s.is_active(), before_active);
    assert_eq!(s.status(), before_status);
}

#[test]
fn status_is_the_derived_text_for_the_pair() {
    let mut s = ClickerState::new();
    s.toggle();
    assert_eq!(s.status(), "🔥 Clicking at 50.0 CPS! 🔥");
    s.set_rate(10000);
    assert_eq!(s.status(), "🔥 Clicking at 1000.0 CPS! 🔥");
    s.set_rate(1234);
    assert_eq!(s.status(), "🔥 Clicking at 123.4 CPS! 🔥");
    s.toggle();
    assert_eq!(s.status(), "Paused. Press START or F1 to resume.");
}

#[test]
fn active_step_at_100_cps_clicks_once_and_sleeps_10_ms() {
    let mut s = ClickerState::new();
    s.set_rate(1000);
    s.toggle();
    let a = step_action(&s);
    assert!(a.click);
    assert_eq!(a.sleep_micros, 10_000);
}

#[test]
fn idle_step_does_not_click_and_sleeps_the_idle_pause() {
    let s = ClickerState::new();
    let a = step_action(&s);
    assert!(!a.click);
    assert_eq!(a.sleep_micros, 10_000);
}

#[test]
fn interval_substitutes_a_millisecond_for_zero_or_negative_rates() {
    assert_eq!(interval_micros(0), 1000);
    assert_eq!(interval_micros(-5), 1000);
    assert_eq!(interval_micros(i64::MIN), 1000);
}

#[test]
fn interval_is_one_second_over_the_rate() {
    assert_eq!(interval_micros(10), 1_000_000);
    assert_eq!(interval_micros(500), 20_000);
    assert_eq!(interval_micros(10000), 1000);
}

#[test]
fn toggling_from_idle_and_back_clicks_only_while_clicking() {
    let mut s = ClickerState::new();
    assert!(!step_action(&s).click);
    s.toggle();
    assert!(step_action(&s).click);
    s.toggle();
    assert!(!step_action(&s).click);
}

#[test]
fn decimal_strings_are_exact() {
    assert_eq!(dec_string(0), "0");
    assert_eq!(dec_string(7), "7");
    assert_eq!(dec_string(907), "907");
    assert_eq!(tenths_string(0), "0.0");
    assert_eq!(tenths_string(10), "1.0");
    assert_eq!(tenths_string(10000), "1000.0");
}

#[test]
fn icon_bytes_decode_to_their_pixels() {
    let mut img = image::RgbaImage::new(2, 3);
    img.put_pixel(0, 0, image::Rgba([1, 2, 3, 4]));
    let mut bytes: Vec<u8> = Vec::new();
    img.write_to(
        &mut std::io::Cursor::new(&mut bytes),
        image::ImageFormat::Png,
    )
    .unwrap();

    let icon = icon_from_bytes(&bytes).unwrap();
    assert_eq!(icon.width(), 2);
    assert_eq!(icon.height(), 3);
    let rgba = icon.into_rgba();
    assert_eq!(rgba.len(), 24);
    assert_eq!(&rgba[0..4], &[1, 2, 3, 4]);
}

#[test]
fn undecodable_icon_bytes_yield_nothing() {
    assert!(icon_from_bytes(&[0, 1, 2, 3, 4, 5]).is_none());
    assert!(icon_from_bytes(&[]).is_none());
}
