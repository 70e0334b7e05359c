use arpx::limits::env_limit;
use arpx::limits::parse_usize;
use arpx::limits::Limits;

#[test]
fn defaults_match_the_stated_ceilings() {
    let limits = Limits::new();
    assert_eq!(limits.processes_max, 200);
    assert_eq!(limits.log_monitors_max, 200);
    assert_eq!(limits.concurrent_processes_max, 500);
    assert_eq!(limits.thread_max, 500);
}

#[test]
fn numeric_overrides_are_taken() {
    assert_eq!(env_limit(&Some("123".to_string()), 200), 123);
    assert_eq!(env_limit(&Some("0".to_string()), 200), 0);
    assert_eq!(env_limit(&Some("+42".to_string()), 200), 42);
}

#[test]
fn malformed_overrides_fall_back_silently() {
    assert_eq!(env_limit(&Some("abc".to_string()), 200), 200);
    assert_eq!(env_limit(&Some("".to_string()), 200), 200);
    assert_eq!(env_limit(&Some("12x".to_string()), 200), 200);
    assert_eq!(env_limit(&Some("-3".to_string()), 200), 200);
    assert_eq!(env_limit(&Some(" 5".to_string()), 200), 200);
    assert_eq!(env_limit(&None, 500), 500);
}

#[test]
fn overflowing_overrides_fall_back_silently() {
    assert_eq!(env_limit(&Some("99999999999999999999999999".to_string()), 7), 7);
}

#[test]
fn parse_usize_matches_std() {
    for candidate in ["0", "10", "+7", "18446744073709551615", "", "x", "1 ", "++1", "184467440737095516159"] {
        assert_eq!(parse_usize(candidate), candidate.parse::<usize>().ok(), "on {:?}", candidate);
    }
}

#[test]
fn env_values_build_the_limits() {
    let limits = Limits::from_env_values(
        &Some("1".to_string()),
        &Some("oops".to_string()),
        &None,
        &Some("9".to_string()),
    );
    assert_eq!(limits.processes_max, 1);
    assert_eq!(limits.log_monitors_max, 200);
    assert_eq!(limits.concurrent_processes_max, 500);
    assert_eq!(limits.thread_max, 9);
}
