use demo_analysis::base::report::{duration_parts, ProgressWindow};
use demo_analysis::parameters::{get_parameter_value, Parameter, ParameterError, Parameters};
use demo_analysis::util::csv::escape_csv_string;
use demo_analysis::util::helpers::{
    divide_toward_zero, handle_to_entid, viewangle_delta, FULL_TURN, HALF_TURN, UNIT,
};
use demo_analysis::util::text::{parse_u32, same_text};

const DEG: i64 = 1_000_000;

#[test]
fn units_are_millionths() {
    assert_eq!(UNIT, 1_000_000);
    assert_eq!(HALF_TURN, 180 * DEG);
    assert_eq!(FULL_TURN, 360 * DEG);
}

#[test]
fn yaw_delta_wraps_forward_across_zero() {
    // From 350 degrees to 10 degrees is a turn of 20 degrees, not of 340.
    let (yaw, pitch) = viewangle_delta(10 * DEG, 0, 350 * DEG, 0, 1);
    assert_eq!(yaw, 20 * DEG);
    assert_eq!(pitch, 0);
}

#[test]
fn yaw_delta_wraps_backward_across_zero() {
    let (yaw, _) = viewangle_delta(350 * DEG, 0, 10 * DEG, 0, 1);
    assert_eq!(yaw, -20 * DEG);
}

#[test]
fn yaw_delta_of_equal_angles_is_zero() {
    for a in [0, 1, 90 * DEG, 359 * DEG, -45 * DEG, 720 * DEG] {
        assert_eq!(viewangle_delta(a, 5 * DEG, a, 5 * DEG, 1), (0, 0));
    }
}

#[test]
fn yaw_delta_half_turn_is_positive() {
    // The range is half open: half a turn counts as +180, never as -180.
    assert_eq!(viewangle_delta(180 * DEG, 0, 0, 0, 1).0, 180 * DEG);
    assert_eq!(viewangle_delta(0, 0, 180 * DEG, 0, 1).0, 180 * DEG);
    assert_eq!(viewangle_delta(181 * DEG, 0, 0, 0, 1).0, -179 * DEG);
}

#[test]
fn yaw_delta_ignores_full_turns() {
    assert_eq!(viewangle_delta(370 * DEG, 0, 0, 0, 1).0, 10 * DEG);
    assert_eq!(viewangle_delta(10 * DEG, 0, 360 * DEG, 0, 1).0, 10 * DEG);
    assert_eq!(viewangle_delta(-350 * DEG, 0, 0, 0, 1).0, 10 * DEG);
}

#[test]
fn deltas_are_rates_per_tick() {
    let (yaw, pitch) = viewangle_delta(40 * DEG, -30 * DEG, 0, 30 * DEG, 4);
    assert_eq!(yaw, 10 * DEG);
    assert_eq!(pitch, -15 * DEG);
}

#[test]
fn zero_ticks_count_as_one() {
    assert_eq!(
        viewangle_delta(40 * DEG, 10 * DEG, 0, 0, 0),
        viewangle_delta(40 * DEG, 10 * DEG, 0, 0, 1)
    );
    assert_eq!(viewangle_delta(40 * DEG, 10 * DEG, 0, 0, 0), (40 * DEG, 10 * DEG));
}

#[test]
fn rates_round_toward_zero() {
    assert_eq!(viewangle_delta(7, -7, 0, 0, 2), (3, -3));
    assert_eq!(viewangle_delta(-7, 7, 0, 0, 2), (-3, 3));
}

#[test]
fn pitch_difference_saturates() {
    let (_, pitch) = viewangle_delta(0, i64::MAX, 0, i64::MIN, 1);
    assert_eq!(pitch, i64::MAX);
    let (_, pitch) = viewangle_delta(0, i64::MIN, 0, i64::MAX, 1);
    assert_eq!(pitch, i64::MIN);
}

#[test]
fn division_rounds_toward_zero() {
    assert_eq!(divide_toward_zero(7, 2), 3);
    assert_eq!(divide_toward_zero(-7, 2), -3);
    assert_eq!(divide_toward_zero(0, 5), 0);
    assert_eq!(divide_toward_zero(6, 3), 2);
}

#[test]
fn handle_keeps_low_eleven_bits() {
    assert_eq!(handle_to_entid(0), 0);
    assert_eq!(handle_to_entid(2047), 2047);
    assert_eq!(handle_to_entid(2048), 0);
    assert_eq!(handle_to_entid(0x0012_3805), 5);
    assert_eq!(handle_to_entid(u32::MAX), 2047);
}

#[test]
fn numerals_are_read() {
    assert_eq!(parse_u32("0"), Some(0));
    assert_eq!(parse_u32("001"), Some(1));
    assert_eq!(parse_u32("+17"), Some(17));
    assert_eq!(parse_u32("4294967295"), Some(u32::MAX));
    assert_eq!(parse_u32("0004294967295"), Some(u32::MAX));
}

#[test]
fn other_texts_are_no_numerals() {
    assert_eq!(parse_u32(""), None);
    assert_eq!(parse_u32("+"), None);
    assert_eq!(parse_u32("-1"), None);
    assert_eq!(parse_u32("12a"), None);
    assert_eq!(parse_u32(" 12"), None);
    assert_eq!(parse_u32("4294967296"), None);
    assert_eq!(parse_u32("99999999999999999999"), None);
    assert_eq!(parse_u32("١٢"), None);
    assert_eq!(parse_u32("++1"), None);
}

#[test]
fn numerals_agree_with_the_standard_reading() {
    for text in ["0", "7", "+7", "-7", "", "+", "007", "4294967295", "4294967296", "1 ", "x"] {
        assert_eq!(parse_u32(text), text.parse::<u32>().ok(), "{:?}", text);
    }
}

#[test]
fn texts_are_told_apart() {
    assert!(same_text("BOT", "BOT"));
    assert!(!same_text("BOT", "bot"));
    assert!(!same_text("BOT", "BOTS"));
    assert!(same_text("", ""));
    assert!(same_text("naïve", "naïve"));
}

#[test]
fn csv_fields_are_quoted() {
    assert_eq!(escape_csv_string("alice"), "\"alice\"");
    assert_eq!(escape_csv_string(""), "\"\"");
    assert_eq!(escape_csv_string("a\"b"), "\"a\"\"b\"");
    assert_eq!(escape_csv_string("\""), "\"\"\"\"");
    assert_eq!(escape_csv_string("a,b"), "\"a,b\"");
    assert_eq!(escape_csv_string("héllo"), "\"héllo\"");
}

#[test]
fn durations_are_split() {
    // 1 h 2 min 3.45 s
    let d = (3600 + 2 * 60 + 3) * UNIT + 450_000;
    assert_eq!(duration_parts(d), (1, 2, 3, 45));
    assert_eq!(duration_parts(0), (0, 0, 0, 0));
    assert_eq!(duration_parts(59 * UNIT + 999_999), (0, 0, 59, 99));
    assert_eq!(duration_parts(-5 * UNIT), (0, 0, 0, 0));
}

#[test]
fn progress_rate_is_averaged_over_the_window() {
    let mut window = ProgressWindow::new();
    // A single report gives its own tick.
    assert_eq!(window.record(100), 100);
    // Two reports: 200 ticks over one step.
    assert_eq!(window.record(300), 200);
    // Three reports: 500 ticks over two steps.
    assert_eq!(window.record(600), 250);
}

#[test]
fn progress_window_keeps_ten_reports() {
    let mut window = ProgressWindow::new();
    let mut rate = 0;
    for i in 0..20u32 {
        rate = window.record(i * i);
    }
    // The window holds the squares of 10..=19: (361 - 100) / 9.
    assert_eq!(rate, 29);
}

#[test]
fn progress_that_runs_backward_counts_as_none() {
    let mut window = ProgressWindow::new();
    window.record(500);
    assert_eq!(window.record(100), 0);
}

#[test]
fn parameters_are_found_by_name() {
    let params: Parameters = vec![
        ("noise_min".to_string(), Parameter::Float(28_000)),
        ("batch".to_string(), Parameter::Int(2048)),
        ("on".to_string(), Parameter::Bool(true)),
        ("batch".to_string(), Parameter::Int(1)),
    ];
    assert_eq!(get_parameter_value(&params, "noise_min"), Some(Parameter::Float(28_000)));
    assert_eq!(get_parameter_value(&params, "batch"), Some(Parameter::Int(2048)));
    assert_eq!(get_parameter_value(&params, "on"), Some(Parameter::Bool(true)));
    assert_eq!(get_parameter_value(&params, "missing"), None);
    assert_eq!(get_parameter_value(&Vec::new(), "noise_min"), None);
}

#[test]
fn parameters_are_read_by_kind() {
    assert_eq!(Parameter::Float(5).as_float(), Ok(5));
    assert_eq!(Parameter::Int(5).as_int(), Ok(5));
    assert_eq!(Parameter::Bool(false).as_bool(), Ok(false));
    assert_eq!(Parameter::Int(5).as_float(), Err(ParameterError::TypeMismatch));
    assert_eq!(Parameter::Bool(true).as_float(), Err(ParameterError::TypeMismatch));
    assert_eq!(Parameter::Float(5).as_int(), Err(ParameterError::TypeMismatch));
    assert_eq!(Parameter::Bool(true).as_int(), Err(ParameterError::TypeMismatch));
    assert_eq!(Parameter::Float(1).as_bool(), Err(ParameterError::TypeMismatch));
    assert_eq!(Parameter::Int(1).as_bool(), Err(ParameterError::TypeMismatch));
}
