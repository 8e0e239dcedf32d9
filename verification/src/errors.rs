use vstd::prelude::*;

verus! {

/// The transport-level failure classes a single connection attempt can
/// surface once an address was resolved and a connect was actually tried.
#[derive(Clone, Copy, Debug, PartialEq, Eq, Structural)]
pub enum TransportKind {
    /// The remote host actively refused the connection.
    Refused,
    /// No route to the network or host.
    Unreachable,
    /// The connection was reset while being established.
    Reset,
    /// Any other OS-level transport failure.
    Other,
}

/// Everything a probe can report to its caller.
#[derive(Clone, Copy, Debug, PartialEq, Eq, Structural)]
pub enum ProbeError {
    /// The caller supplied a zero-length timeout; rejected before any
    /// network activity.
    InvalidTimeout,
    /// The target's hostname did not resolve to any usable address.
    Unresolvable,
    /// The attempt's bound elapsed before the connect resolved.
    TimedOut,
    /// An OS-level transport failure, carrying its class.
    Transport(TransportKind),
}

impl ProbeError {
    /// A short, fixed diagnostic for each failure class.
    pub fn message(&self) -> (r: &'static str)
        ensures
            *self is InvalidTimeout ==> r@ == "cannot set a 0 duration timeout"@,
            *self is Unresolvable ==> r@ == "target did not resolve to any address"@,
            *self is TimedOut ==> r@ == "future timed out"@,
            *self is Transport ==> r@ == "transport error while connecting"@,
    {
        match self {
            ProbeError::InvalidTimeout => "cannot set a 0 duration timeout",
            ProbeError::Unresolvable => "target did not resolve to any address",
            ProbeError::TimedOut => "future timed out",
            ProbeError::Transport(_) => "transport error while connecting",
        }
    }
}

} // verus!
