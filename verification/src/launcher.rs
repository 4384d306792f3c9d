//! The driver process launcher: which port each attempt binds.

use vstd::prelude::*;
use crate::backoff::{Backoff, RetryPolicy};
use crate::text::{decimal, decimal_text};

verus! {

/// How the driver process is launched.
#[derive(Clone, Copy, Debug, PartialEq, Eq, Structural)]
pub struct LaunchConfig {
    /// The port from which the candidate ports are counted.
    pub start_port: u64,
    /// The bound on the attempts and the delays between them.
    pub retry: RetryPolicy,
}

/// The port that is used where none is given.
pub const DEFAULT_PORT: u64 = 4444;

/// How far the port of an attempt lies from the starting port, by the number of
/// attempts that failed before it: the first attempt binds the starting port
/// itself, and each retry moves on by its own number, to 1, 3, 6 and so on.
pub open spec fn port_offset(failures: nat) -> nat {
    failures * (failures + 1) / 2
}

/// The port of the attempt that follows `failures` failed ones, if it is a number
/// that the machine can hold.
pub open spec fn candidate_port(start_port: u64, failures: u8) -> Option<u64> {
    let port = start_port + port_offset(failures as nat);
    if port <= u64::MAX {
        Some(port as u64)
    } else {
        None
    }
}

/// The port of the attempt that follows `failures` failed ones: the starting
/// port for the first attempt, a port further on for each retry.
pub fn port_for_attempt(start_port: u64, failures: u8) -> (port: Option<u64>)
    ensures
        port == candidate_port(start_port, failures),
        failures == 0 ==> port == Some(start_port),
{
    let retries: u64 = failures as u64;
    assert(retries * (retries + 1) <= 255 * 256 && (retries == 0 ==> retries * (retries + 1) == 0))
        by (nonlinear_arith)
        requires
            0 <= retries <= 255,
    ;
    let offset: u64 = retries * (retries + 1) / 2;
    start_port.checked_add(offset)
}

/// The first attempt binds the starting port.
pub proof fn lemma_first_port(start_port: u64)
    ensures
        candidate_port(start_port, 0) == Some(start_port),
        port_offset(0) == 0,
{
}

/// The offset grows with each retry, by the number of the retry: no two attempts
/// bind the same port.
pub proof fn lemma_offset_grows(failures: nat)
    ensures
        port_offset(failures + 1) == port_offset(failures) + failures + 1,
        port_offset(failures) < port_offset(failures + 1),
{
    assert((failures + 1) * (failures + 2) == failures * (failures + 1) + 2 * (failures + 1))
        by (nonlinear_arith);
}

/// A later attempt binds a port beyond that of every earlier attempt, where both
/// have one; and where a later attempt has a port, so has every earlier one.
pub proof fn lemma_ports_grow(start_port: u64, earlier: u8, later: u8)
    requires
        earlier < later,
    ensures
        port_offset(earlier as nat) < port_offset(later as nat),
        candidate_port(start_port, later) is Some ==> candidate_port(start_port, earlier) is Some
            && candidate_port(start_port, earlier)->0 < candidate_port(start_port, later)->0,
    decreases later - earlier,
{
    lemma_offset_grows(earlier as nat);
    if earlier + 1 < later {
        lemma_ports_grow(start_port, (earlier + 1) as u8, later);
    }
}

/// The arguments that bind the driver to `port`: the option `--port` and the
/// port in decimal digits.
pub fn driver_arguments(port: u64) -> (arguments: Vec<String>)
    ensures
        arguments@.len() == 2,
        arguments@[0]@ == "--port"@,
        arguments@[1]@ == decimal(port as nat),
{
    let mut arguments: Vec<String> = Vec::new();
    arguments.push("--port".to_string());
    arguments.push(decimal_text(port));
    arguments
}

/// The name of the driver executable that is launched where none is given.
pub fn default_driver() -> (name: &'static str)
    ensures
        name@ == "geckodriver"@,
{
    "geckodriver"
}

impl LaunchConfig {
    /// The launcher's usual configuration from `port`, or from the default port
    /// where none is given: three attempts, with delays that grow from 100 ms.
    pub fn from_port(port: Option<u64>) -> (config: Self)
        ensures
            config.start_port == (match port {
                Some(n) => n,
                None => DEFAULT_PORT,
            }),
            config.retry == (RetryPolicy {
                max_attempts: 3,
                backoff: Backoff::Exponential { base_millis: 100 },
            }),
    {
        let start_port = match port {
            Some(n) => n,
            None => DEFAULT_PORT,
        };
        LaunchConfig {
            start_port,
            retry: RetryPolicy { max_attempts: 3, backoff: Backoff::Exponential { base_millis: 100 } },
        }
    }
}

} // verus!
