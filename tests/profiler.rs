use caterpillar::{decimal, fmt_duration, mean_duration, same_text, TimeProfiler};

fn rule() -> String {
    let mut s = "-".repeat(120);
    s.push('\n');
    s
}

#[test]
fn durations_are_written_in_microseconds() {
    assert_eq!(fmt_duration(0), "0us");
    assert_eq!(fmt_duration(1_500), "1.5us");
    assert_eq!(fmt_duration(1_000), "1us");
    assert_eq!(fmt_duration(123), "0.123us");
    assert_eq!(fmt_duration(50), "0.05us");
    assert_eq!(fmt_duration(1_234_567), "1234.567us");
    assert_eq!(fmt_duration(999_999_999), "999999.999us");
    assert_eq!(fmt_duration(2_000_123_000), "2s,123us");
    assert_eq!(fmt_duration(1_000_000_050), "1s,0.05us");
    assert_eq!(fmt_duration(61_000_000_000), "61s,0us");
}

#[test]
fn durations_match_float_rendering() {
    for n in [0_u32, 1, 7, 10, 90, 100, 101, 999, 1_001, 20_020, 555_555_555, 999_999_999] {
        let expected = format!("{}us", n as f64 / 1000_f64);
        assert_eq!(fmt_duration(n as u128), expected);
    }
}

#[test]
fn mean_divides_each_sample() {
    assert_eq!(mean_duration(&vec![10, 20, 30]), 3 + 6 + 10);
    assert_eq!(mean_duration(&vec![7]), 7);
    assert_eq!(mean_duration(&vec![1, 1]), 0);
    assert_eq!(mean_duration(&vec![u128::MAX, u128::MAX]), u128::MAX / 2 * 2);
}

#[test]
fn decimal_digits() {
    assert_eq!(decimal(0), "0");
    assert_eq!(decimal(9), "9");
    assert_eq!(decimal(10), "10");
    assert_eq!(decimal(1_234_567_890), "1234567890");
    assert_eq!(decimal(u128::MAX), u128::MAX.to_string());
}

#[test]
fn text_comparison() {
    assert!(same_text("abc", "abc"));
    assert!(!same_text("abc", "abd"));
    assert!(!same_text("abc", "ab"));
    assert!(same_text("", ""));
    assert!(same_text("çé", "çé"));
}

#[test]
fn report_lists_checkpoints_in_first_check_order() {
    let mut p = TimeProfiler::new();
    p.record("force", 2_000, 1_000);
    p.record("grip", 3_000, 500);
    p.record("force", 4_000, 3_000);
    let expected = format!(
        "{r}force  (elapsed time --- total: 3us, since last checkpoint: 2us)\n{r}{r}grip  (elapsed time --- total: 3us, since last checkpoint: 0.5us)\n{r}",
        r = rule()
    );
    assert_eq!(p.output(), expected);
}

#[test]
fn report_after_reset_memo() {
    let mut p = TimeProfiler::new();
    p.record("a", 1_000, 1_000);
    p.record("b", 2_000, 1_000);
    p.reset_memo();
    assert_eq!(p.output(), "");
    p.record("b", 5_000_000_000, 4_000);
    p.record("a", 7_000, 6_000);
    let expected = format!(
        "{r}a  (elapsed time --- total: 7us, since last checkpoint: 6us)\n{r}{r}b  (elapsed time --- total: 5s,0us, since last checkpoint: 4us)\n{r}",
        r = rule()
    );
    assert_eq!(p.output(), expected);
}

#[test]
fn checks_take_the_time() {
    let mut p = TimeProfiler::new();
    assert_eq!(p.output(), "");
    p.check("one");
    p.check("two");
    p.check("one");
    p.reset_time();
    p.check("two");
    let out = p.output();
    let one = out.find("one  (elapsed time --- total: ").unwrap();
    let two = out.find("two  (elapsed time --- total: ").unwrap();
    assert!(one < two);
    assert_eq!(out.matches(&rule()).count(), 4);
}
