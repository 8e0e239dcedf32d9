use crate::errors::{ProbeError, TransportKind};
use crate::utils::Timeout;
use vstd::prelude::*;

verus! {

/// One recorded connection attempt: which endpoint was contacted, under which
/// bound (in whole seconds; `None` means the OS decided), and what came back.
pub struct Attempt {
    pub target: Seq<char>,
    pub bound: Option<u64>,
    pub outcome: Result<(), ProbeError>,
}

/// The bound actually handed to an attempt, in whole seconds.
pub open spec fn bound_secs(bound: Option<Timeout>) -> Option<u64> {
    match bound {
        None => None,
        Some(t) => Some(t.secs),
    }
}

/// The bounded-connector capability: one implementation per execution model
/// (a blocking call, a cooperative scheduler, a scripted double). An
/// implementation attempts exactly one TCP connection per call and records
/// that attempt; nothing is promised of the outcome itself, so everything
/// proved against this trait holds whatever the network did.
pub trait Connector {
    /// The attempts this connector has performed, oldest first.
    spec fn log(&self) -> Seq<Attempt>;

    /// Attempt one connection to `target`, bounded by `bound` if present.
    /// On success the connection is discarded at once; no data is exchanged.
    fn connect(&mut self, target: &str, bound: Option<Timeout>) -> (r: Result<(), ProbeError>)
        requires
            bound matches Some(t) ==> t.secs >= 1,
        ensures
            final(self).log() == old(self).log().push(
                (Attempt { target: target@, bound: bound_secs(bound), outcome: r }),
            ),
    ;
}

/// What a single bounded connection attempt observed, before it is folded
/// into a probe outcome: the target resolved to no address at all, the bound
/// elapsed first, the handshake completed, or the transport failed.
#[derive(Clone, Copy, Debug, PartialEq, Eq, Structural)]
pub enum ConnectEvent {
    /// Address resolution produced no usable address.
    NoAddress,
    /// The explicit bound elapsed before the connect resolved.
    DeadlineElapsed,
    /// The handshake completed; the socket is discarded at once.
    Connected,
    /// The connect itself failed with a transport error.
    Failed(TransportKind),
}

/// The outcome a bounded connection attempt reports for each event.
pub open spec fn event_outcome(ev: ConnectEvent) -> Result<(), ProbeError> {
    match ev {
        ConnectEvent::NoAddress => Err(ProbeError::Unresolvable),
        ConnectEvent::DeadlineElapsed => Err(ProbeError::TimedOut),
        ConnectEvent::Connected => Ok(()),
        ConnectEvent::Failed(k) => Err(ProbeError::Transport(k)),
    }
}

/// Folds what one connection attempt observed into the attempt's outcome:
/// an unresolvable target short-circuits, an elapsed bound is surfaced as a
/// timeout distinct from any transport error, a completed handshake is
/// success, and a transport failure is reported with its class.
pub fn classify_event(ev: ConnectEvent) -> (r: Result<(), ProbeError>)
    ensures
        r == event_outcome(ev),
{
    match ev {
        ConnectEvent::NoAddress => Err(ProbeError::Unresolvable),
        ConnectEvent::DeadlineElapsed => Err(ProbeError::TimedOut),
        ConnectEvent::Connected => Ok(()),
        ConnectEvent::Failed(k) => Err(ProbeError::Transport(k)),
    }
}

} // verus!
