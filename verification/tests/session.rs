use procyon::backoff::{Backoff, RetryPolicy};
use procyon::session::{default_policy, webdriver_url, Browser};

#[test]
fn the_driver_is_reached_on_this_machine() {
    assert_eq!(webdriver_url(4444), "http://localhost:4444");
    assert_eq!(webdriver_url(4445), "http://localhost:4445");
    assert_eq!(webdriver_url(0), "http://localhost:0");
}

#[test]
fn firefox_is_the_browser_that_is_known() {
    assert_eq!(Browser::from_name("firefox"), Some(Browser::Firefox));
    assert_eq!(Browser::from_name("chrome"), None);
    assert_eq!(Browser::from_name("Firefox"), None);
    assert_eq!(Browser::from_name(""), None);
    assert_eq!(Browser::Firefox.name(), "firefox");
}

#[test]
fn firefox_runs_headless_by_its_options() {
    assert_eq!(Browser::Firefox.options_key(), "moz:firefoxOptions");
    assert_eq!(Browser::Firefox.headless_arguments(), vec!["--headless".to_string()]);
}

#[test]
fn the_session_is_asked_for_five_times() {
    assert_eq!(
        default_policy(),
        RetryPolicy { max_attempts: 5, backoff: Backoff::Fixed { millis: 100 } }
    );
}
