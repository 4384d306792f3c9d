use procyon::backoff::{Backoff, RetryPolicy};
use procyon::launcher::{
    default_driver, driver_arguments, port_for_attempt, LaunchConfig, DEFAULT_PORT,
};

#[test]
fn the_first_attempt_binds_the_starting_port() {
    assert_eq!(port_for_attempt(4444, 0), Some(4444));
    assert_eq!(port_for_attempt(0, 0), Some(0));
    assert_eq!(port_for_attempt(9515, 0), Some(9515));
    assert_eq!(port_for_attempt(u64::MAX, 0), Some(u64::MAX));
}

#[test]
fn each_retry_moves_on_by_its_own_number() {
    assert_eq!(port_for_attempt(4444, 1), Some(4445));
    assert_eq!(port_for_attempt(4444, 2), Some(4447));
    assert_eq!(port_for_attempt(4444, 3), Some(4450));
    assert_eq!(port_for_attempt(4444, 4), Some(4454));
    assert_eq!(port_for_attempt(0, 255), Some(32_640));
}

#[test]
fn no_two_attempts_bind_the_same_port() {
    let mut last = port_for_attempt(4444, 0).expect("the first attempt has a port");
    for failures in 1..=255u8 {
        let port = port_for_attempt(4444, failures).expect("the retry has a port");
        assert_eq!(port - last, failures as u64);
        last = port;
    }
}

#[test]
fn a_port_beyond_the_largest_number_does_not_exist() {
    assert_eq!(port_for_attempt(u64::MAX, 1), None);
    assert_eq!(port_for_attempt(u64::MAX - 1, 1), Some(u64::MAX));
    assert_eq!(port_for_attempt(u64::MAX - 1, 2), None);
    assert_eq!(port_for_attempt(u64::MAX - 3, 2), Some(u64::MAX));
}

#[test]
fn the_driver_is_bound_by_the_port_option() {
    assert_eq!(driver_arguments(4444), vec!["--port".to_string(), "4444".to_string()]);
    assert_eq!(driver_arguments(4445), vec!["--port".to_string(), "4445".to_string()]);
    assert_eq!(driver_arguments(0), vec!["--port".to_string(), "0".to_string()]);
}

#[test]
fn the_usual_launcher_starts_at_the_default_port() {
    assert_eq!(DEFAULT_PORT, 4444);
    assert_eq!(default_driver(), "geckodriver");
    let usual = LaunchConfig::from_port(None);
    assert_eq!(
        usual,
        LaunchConfig {
            start_port: 4444,
            retry: RetryPolicy {
                max_attempts: 3,
                backoff: Backoff::Exponential { base_millis: 100 },
            },
        }
    );
    let given = LaunchConfig::from_port(Some(9515));
    assert_eq!(given.start_port, 9515);
    assert_eq!(given.retry, usual.retry);
}
