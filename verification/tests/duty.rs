use fancontrol::ec_io::{calculate_fan_duty, calculate_raw_duty};

#[test]
fn raw_to_percent_rounds_to_nearest() {
    assert_eq!(calculate_fan_duty(0), 0);
    assert_eq!(calculate_fan_duty(1), 0);
    assert_eq!(calculate_fan_duty(2), 1);
    assert_eq!(calculate_fan_duty(76), 30);
    assert_eq!(calculate_fan_duty(77), 30);
    assert_eq!(calculate_fan_duty(127), 50);
    assert_eq!(calculate_fan_duty(128), 50);
    assert_eq!(calculate_fan_duty(129), 51);
    assert_eq!(calculate_fan_duty(153), 60);
    assert_eq!(calculate_fan_duty(254), 100);
    assert_eq!(calculate_fan_duty(255), 100);
}

#[test]
fn percent_to_raw_rounds_down() {
    assert_eq!(calculate_raw_duty(0), 0);
    assert_eq!(calculate_raw_duty(1), 2);
    assert_eq!(calculate_raw_duty(30), 76);
    assert_eq!(calculate_raw_duty(50), 127);
    assert_eq!(calculate_raw_duty(52), 132);
    assert_eq!(calculate_raw_duty(60), 153);
    assert_eq!(calculate_raw_duty(99), 252);
    assert_eq!(calculate_raw_duty(100), 255);
}

#[test]
fn percent_above_full_speed_commands_full_speed() {
    assert_eq!(calculate_raw_duty(101), 255);
    assert_eq!(calculate_raw_duty(200), 255);
    assert_eq!(calculate_raw_duty(255), 255);
}

#[test]
fn percent_survives_the_round_trip() {
    for p in 0..=100u8 {
        let back = calculate_fan_duty(calculate_raw_duty(p));
        assert!(back as i32 - p as i32 <= 1 && p as i32 - back as i32 <= 1, "{p} came back as {back}");
        assert_eq!(back, p);
    }
}

#[test]
fn raw_to_percent_never_exceeds_full_speed() {
    for raw in 0..=255u8 {
        assert!(calculate_fan_duty(raw) <= 100);
    }
}

#[test]
fn raw_to_percent_agrees_with_the_real_quotient() {
    for raw in 0..=255u8 {
        let exact = raw as f64 / 255.0 * 100.0;
        assert_eq!(calculate_fan_duty(raw) as f64, exact.round(), "raw {raw}");
    }
}

#[test]
fn percent_to_raw_agrees_with_single_precision() {
    for p in 0..=100u8 {
        let raw = ((p as f32 / 100.0) * 255.0) as u8;
        assert_eq!(calculate_raw_duty(p), raw, "percent {p}");
    }
}
