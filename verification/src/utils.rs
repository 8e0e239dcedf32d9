use crate::errors::ProbeError;
use vstd::prelude::*;

verus! {

// Captive-portal probe endpoints. They are defaults only: every probing
// function also exists in a form that takes the two endpoints as arguments,
// so deployments and tests can point the probe elsewhere.
pub const ADDRS: &'static str = "clients3.google.com:80";

pub const ADDRS_BACK: &'static str = "detectportal.firefox.com:80";

/// A validated connection bound: a positive number of whole seconds.
#[derive(Clone, Copy, Debug, PartialEq, Eq, Structural)]
pub struct Timeout {
    pub secs: u64,
}

/// Validates a caller-supplied timeout. A zero duration is a configuration
/// error, not "wait forever": it is rejected here, before any network
/// activity. Any positive number of seconds maps to itself.
pub fn parse_timeout(timeout: u64) -> (r: Result<Timeout, ProbeError>)
    ensures
        timeout == 0 ==> r == Err::<Timeout, ProbeError>(ProbeError::InvalidTimeout),
        timeout != 0 ==> r == Ok::<Timeout, ProbeError>((Timeout { secs: timeout })),
{
    if timeout == 0 {
        Err(ProbeError::InvalidTimeout)
    } else {
        Ok(Timeout { secs: timeout })
    }
}

/// Timeout normalizer: an absent timeout means "let the OS decide" and stays
/// absent; a present timeout must be a positive number of seconds.
pub fn normalize_timeout(timeout: Option<u64>) -> (r: Result<Option<Timeout>, ProbeError>)
    ensures
        timeout is None ==> r == Ok::<Option<Timeout>, ProbeError>(None),
        timeout == Some(0u64) ==> r == Err::<Option<Timeout>, ProbeError>(
            ProbeError::InvalidTimeout,
        ),
        (timeout matches Some(t) && t != 0) ==> r == Ok::<Option<Timeout>, ProbeError>(
            Some((Timeout { secs: timeout->0 })),
        ),
{
    match timeout {
        None => Ok(None),
        Some(t) => match parse_timeout(t) {
            Ok(d) => Ok(Some(d)),
            Err(e) => Err(e),
        },
    }
}

} // verus!
