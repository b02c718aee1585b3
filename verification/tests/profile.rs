use fancontrol::error::Error;
use fancontrol::profile::{calc_next_duty, calc_next_duty_quiet, Mode};

fn default_curve_in_floats(temp: f32) -> f32 {
    if temp <= 40.0 {
        32.0
    } else if temp <= 60.0 {
        0.71 * temp + 4.0
    } else if temp <= 80.0 {
        2.5 * temp - 100.0
    } else {
        100.0
    }
}

fn quiet_curve_in_floats(temp: f32) -> f32 {
    if temp <= 40.0 {
        28.0
    } else if temp <= 50.0 {
        0.58 * temp + 5.0
    } else if temp <= 65.0 {
        1.1 * temp - 20.0
    } else if temp <= 80.0 {
        2.2 * temp - 88.0
    } else {
        100.0
    }
}

fn args(list: &[&str]) -> Vec<String> {
    list.iter().map(|s| s.to_string()).collect()
}

#[test]
fn default_curve_at_its_corners() {
    assert_eq!(calc_next_duty(0), 32);
    assert_eq!(calc_next_duty(40), 32);
    assert_eq!(calc_next_duty(41), 33);
    assert_eq!(calc_next_duty(51), 40);
    assert_eq!(calc_next_duty(60), 46);
    assert_eq!(calc_next_duty(61), 52);
    assert_eq!(calc_next_duty(70), 75);
    assert_eq!(calc_next_duty(79), 97);
    assert_eq!(calc_next_duty(80), 100);
    assert_eq!(calc_next_duty(81), 100);
    assert_eq!(calc_next_duty(255), 100);
}

#[test]
fn quiet_curve_at_its_corners() {
    assert_eq!(calc_next_duty_quiet(0), 28);
    assert_eq!(calc_next_duty_quiet(40), 28);
    assert_eq!(calc_next_duty_quiet(41), 28);
    assert_eq!(calc_next_duty_quiet(50), 34);
    assert_eq!(calc_next_duty_quiet(51), 36);
    assert_eq!(calc_next_duty_quiet(55), 40);
    assert_eq!(calc_next_duty_quiet(64), 50);
    assert_eq!(calc_next_duty_quiet(65), 51);
    assert_eq!(calc_next_duty_quiet(66), 57);
    assert_eq!(calc_next_duty_quiet(80), 88);
    assert_eq!(calc_next_duty_quiet(81), 100);
    assert_eq!(calc_next_duty_quiet(255), 100);
}

#[test]
fn curves_never_fall_and_stay_in_range() {
    for temp in 0..=255u8 {
        let d = calc_next_duty(temp);
        let q = calc_next_duty_quiet(temp);
        assert!((32..=100).contains(&d), "default at {temp}: {d}");
        assert!((28..=100).contains(&q), "quiet at {temp}: {q}");
        if temp > 0 {
            assert!(calc_next_duty(temp - 1) <= d, "default falls at {temp}");
            assert!(calc_next_duty_quiet(temp - 1) <= q, "quiet falls at {temp}");
        }
    }
}

#[test]
fn curves_agree_with_single_precision() {
    for temp in 0..=255u8 {
        assert_eq!(calc_next_duty(temp) as u32, default_curve_in_floats(temp as f32) as u32, "default at {temp}");
        assert_eq!(calc_next_duty_quiet(temp) as u32, quiet_curve_in_floats(temp as f32) as u32, "quiet at {temp}");
    }
}

#[test]
fn mode_picks_its_curve() {
    for temp in 0..=255u8 {
        assert_eq!(Mode::Default.desired_duty(temp), calc_next_duty(temp));
        assert_eq!(Mode::Quiet.desired_duty(temp), calc_next_duty_quiet(temp));
    }
    assert_eq!(Mode::Default.desired_duty(45), 35);
    assert_eq!(Mode::Quiet.desired_duty(45), 31);
}

#[test]
fn mode_names() {
    assert_eq!(Mode::Default.name(), "default mode");
    assert_eq!(Mode::Quiet.name(), "quiet mode");
}

#[test]
fn no_flag_selects_the_default_profile() {
    assert!(matches!(Mode::from_args(&args(&["fan"])), Ok(Mode::Default)));
}

#[test]
fn flags_select_their_profile() {
    assert!(matches!(Mode::from_args(&args(&["fan", "--quiet"])), Ok(Mode::Quiet)));
    assert!(matches!(Mode::from_args(&args(&["fan", "--default"])), Ok(Mode::Default)));
}

#[test]
fn arguments_after_the_flag_are_ignored() {
    assert!(matches!(Mode::from_args(&args(&["fan", "--quiet", "--default"])), Ok(Mode::Quiet)));
    assert!(matches!(Mode::from_args(&args(&["fan", "--default", "nonsense"])), Ok(Mode::Default)));
}

#[test]
fn unknown_flag_is_rejected_with_the_program_name() {
    match Mode::from_args(&args(&["/usr/bin/fan", "--loud"])) {
        Err(Error::WrongArgs(name)) => assert_eq!(name, "/usr/bin/fan"),
        other => panic!("unexpected: {other:?}"),
    }
    assert!(matches!(Mode::from_args(&args(&["fan", ""])), Err(Error::WrongArgs(_))));
    assert!(matches!(Mode::from_args(&args(&["fan", "--quiet "])), Err(Error::WrongArgs(_))));
    assert!(matches!(Mode::from_args(&args(&["fan", "quiet"])), Err(Error::WrongArgs(_))));
}

#[test]
fn empty_argument_list_is_rejected() {
    assert!(matches!(Mode::from_args(&args(&[])), Err(Error::NoExecName)));
}
