use asteroids_core::graphics::score::{decimal_string, render_score, score_update_system, Score};

#[test]
fn score_starts_at_zero_and_active() {
    let s = render_score();
    assert_eq!(s.value, 0);
    assert!(s.active);
}

#[test]
fn active_score_accrues_by_one() {
    let mut s = render_score();
    let text = score_update_system(&mut s);
    assert_eq!(s.value, 1);
    assert!(s.active);
    assert_eq!(text.as_deref(), Some("1"));
    let text = score_update_system(&mut s);
    assert_eq!(s.value, 2);
    assert_eq!(text.as_deref(), Some("2"));
}

#[test]
fn inactive_score_stays_frozen() {
    let mut s = Score { value: 17, active: false };
    let text = score_update_system(&mut s);
    assert_eq!(s.value, 17);
    assert!(!s.active);
    assert!(text.is_none());
}

#[test]
fn reset_score_displays_zero_on_the_next_accrual() {
    let mut s = Score { value: -1, active: true };
    let text = score_update_system(&mut s);
    assert_eq!(s.value, 0);
    assert_eq!(text.as_deref(), Some("0"));
}

#[test]
fn decimal_strings_are_exact() {
    assert_eq!(decimal_string(0), "0");
    assert_eq!(decimal_string(7), "7");
    assert_eq!(decimal_string(10), "10");
    assert_eq!(decimal_string(123), "123");
    assert_eq!(decimal_string(1000), "1000");
    assert_eq!(decimal_string(4294967295), "4294967295");
}
