//! The session client: where the driver is reached and which browser profile is
//! asked for.

use vstd::prelude::*;
use vstd::string::*;
use crate::backoff::{Backoff, RetryPolicy};
use crate::text::{decimal, decimal_text};

verus! {

/// A browser that can be driven without a visible window.
#[derive(Clone, Copy, Debug, PartialEq, Eq, Structural)]
pub enum Browser {
    /// Firefox, driven by geckodriver.
    Firefox,
}

impl Browser {
    /// The browser of that name: `firefox` is the one that is known.
    pub fn from_name(name: &str) -> (browser: Option<Browser>)
        ensures
            browser == (if name@ == "firefox"@ {
                Some(Browser::Firefox)
            } else {
                None
            }),
    {
        let given = name.to_string();
        let known = "firefox".to_string();
        if given == known {
            Some(Browser::Firefox)
        } else {
            None
        }
    }

    /// The name under which the browser is asked for.
    pub fn name(&self) -> (name: &'static str)
        ensures
            name@ == "firefox"@,
    {
        match self {
            Browser::Firefox => "firefox",
        }
    }

    /// The capability under which the session request carries the browser's options.
    pub fn options_key(&self) -> (key: &'static str)
        ensures
            key@ == "moz:firefoxOptions"@,
    {
        match self {
            Browser::Firefox => "moz:firefoxOptions",
        }
    }

    /// The arguments that make the browser run without a visible window.
    pub fn headless_arguments(&self) -> (arguments: Vec<String>)
        ensures
            arguments@.len() == 1,
            arguments@[0]@ == "--headless"@,
    {
        let mut arguments: Vec<String> = Vec::new();
        match self {
            Browser::Firefox => arguments.push("--headless".to_string()),
        }
        arguments
    }
}

/// The address of the driver that listens on `port` of this machine.
pub open spec fn webdriver_url_of(port: u64) -> Seq<char> {
    "http://localhost:"@ + decimal(port as nat)
}

/// The address of the driver that listens on `port` of this machine.
pub fn webdriver_url(port: u64) -> (url: String)
    ensures
        url@ == webdriver_url_of(port),
{
    let mut url = String::from_str("http://localhost:");
    let digits = decimal_text(port);
    url.append(digits.as_str());
    url
}

/// The session client's usual policy: five attempts, 100 ms apart.
pub fn default_policy() -> (policy: RetryPolicy)
    ensures
        policy == (RetryPolicy { max_attempts: 5, backoff: Backoff::Fixed { millis: 100 } }),
{
    RetryPolicy { max_attempts: 5, backoff: Backoff::Fixed { millis: 100 } }
}

} // verus!
