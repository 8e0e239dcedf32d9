//! TCP reachability probing with a primary/backup fallback and bounded
//! timeouts.
//!
//! The library answers "is outbound connectivity available?" by attempting a
//! TCP handshake against a primary endpoint and, only if that fails, against a
//! backup endpoint. A caller-supplied timeout bounds each attempt; a zero
//! timeout is a configuration error and is rejected before any attempt is
//! made. The connection attempt itself is injected through the [`Connector`]
//! trait, so the probing rules are independent of how a connection is
//! established (blocking call, cooperative scheduler, or a scripted double).

mod connector;
mod errors;
mod prober;
mod script;
mod utils;

pub use connector::{bound_secs, classify_event, event_outcome, Attempt, ConnectEvent, Connector};
pub use errors::{ProbeError, TransportKind};
pub use prober::{
    check, check_post, check_with, fold_attempts, fold_outcomes,
    lemma_at_most_two_bounded_attempts, lemma_backup_rescues,
    lemma_double_failure_reports_primary, lemma_fallback_success,
    lemma_primary_success_skips_backup, lemma_probe_deterministic,
};
pub use script::ScriptedConnector;
pub use utils::{normalize_timeout, parse_timeout, Timeout, ADDRS, ADDRS_BACK};
