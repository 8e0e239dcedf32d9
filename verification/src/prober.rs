use crate::connector::{Attempt, Connector};
use crate::errors::ProbeError;
use crate::utils::{normalize_timeout, ADDRS, ADDRS_BACK};
use vstd::prelude::*;

verus! {

/// The error-selection rule for a completed two-attempt probe: success if
/// either attempt succeeded; on double failure the first (primary) attempt's
/// error is reported, so diagnostics point at the better-known endpoint.
pub open spec fn fold_outcomes(
    first: Result<(), ProbeError>,
    second: Result<(), ProbeError>,
) -> Result<(), ProbeError> {
    if first is Ok {
        first
    } else if second is Ok {
        second
    } else {
        first
    }
}

/// Executable form of [`fold_outcomes`], for execution adapters that drive
/// the two attempts themselves (a cooperative scheduler cannot suspend inside
/// [`check_with`], so it folds the outcomes through this function instead).
pub fn fold_attempts(
    first: Result<(), ProbeError>,
    second: Result<(), ProbeError>,
) -> (r: Result<(), ProbeError>)
    ensures
        r == fold_outcomes(first, second),
{
    if first.is_ok() {
        first
    } else if second.is_ok() {
        second
    } else {
        first
    }
}

/// Everything a probe with a valid (non-zero) timeout guarantees, stated over
/// the connector's attempt log before (`log0`) and after (`log1`) the call:
/// the log grows by one or two attempts and is otherwise untouched; the first
/// new attempt contacts the primary endpoint under the caller's bound; the
/// backup is contacted exactly when the primary attempt failed, under the
/// same bound; and the result is success on the first success, else the
/// primary's error.
pub open spec fn check_post(
    log0: Seq<Attempt>,
    log1: Seq<Attempt>,
    primary: Seq<char>,
    backup: Seq<char>,
    bound: Option<u64>,
    r: Result<(), ProbeError>,
) -> bool {
    let n = log0.len() as int;
    &&& log1.len() == n + 1 || log1.len() == n + 2
    &&& log1.subrange(0, n) == log0
    &&& log1[n].target == primary
    &&& log1[n].bound == bound
    &&& (log1[n].outcome is Ok <==> log1.len() == n + 1)
    &&& (log1.len() == n + 1 ==> r == log1[n].outcome)
    &&& (log1.len() == n + 2 ==> {
        &&& log1[n + 1].target == backup
        &&& log1[n + 1].bound == bound
        &&& r == fold_outcomes(log1[n].outcome, log1[n + 1].outcome)
    })
}

/// The fallback prober over caller-chosen endpoints. A zero timeout fails
/// fast with `InvalidTimeout` and performs no attempt at all; otherwise the
/// primary endpoint is attempted first, the backup only on primary failure,
/// both under the caller's bound, and the result is folded per
/// [`fold_outcomes`]. The two attempts are sequential, never concurrent.
pub fn check_with<C: Connector>(
    conn: &mut C,
    primary: &str,
    backup: &str,
    timeout: Option<u64>,
) -> (r: Result<(), ProbeError>)
    ensures
        timeout == Some(0u64) ==> r == Err::<(), ProbeError>(ProbeError::InvalidTimeout)
            && final(conn).log() == old(conn).log(),
        timeout != Some(0u64) ==> check_post(
            old(conn).log(),
            final(conn).log(),
            primary@,
            backup@,
            timeout,
            r,
        ),
{
    let bound = match normalize_timeout(timeout) {
        Ok(b) => b,
        Err(e) => {
            return Err(e);
        },
    };
    let first = conn.connect(primary, bound);
    if first.is_ok() {
        proof {
            assert(conn.log().subrange(0, old(conn).log().len() as int) =~= old(conn).log());
        }
        return first;
    }
    let second = conn.connect(backup, bound);
    proof {
        assert(conn.log().subrange(0, old(conn).log().len() as int) =~= old(conn).log());
    }
    fold_attempts(first, second)
}

/// The probe against the default captive-portal endpoints: primary
/// [`ADDRS`], backup [`ADDRS_BACK`]. Semantics are those of [`check_with`].
pub fn check<C: Connector>(conn: &mut C, timeout: Option<u64>) -> (r: Result<(), ProbeError>)
    ensures
        timeout == Some(0u64) ==> r == Err::<(), ProbeError>(ProbeError::InvalidTimeout)
            && final(conn).log() == old(conn).log(),
        timeout != Some(0u64) ==> check_post(
            old(conn).log(),
            final(conn).log(),
            ADDRS@,
            ADDRS_BACK@,
            timeout,
            r,
        ),
{
    check_with(conn, ADDRS, ADDRS_BACK, timeout)
}

/// A bounded probe makes at most two attempts, and every attempt runs under
/// the caller's own bound: the probe's worst-case latency is the bound for a
/// single attempt and twice the bound when the backup is contacted too.
pub proof fn lemma_at_most_two_bounded_attempts(
    log0: Seq<Attempt>,
    log1: Seq<Attempt>,
    primary: Seq<char>,
    backup: Seq<char>,
    bound: Option<u64>,
    r: Result<(), ProbeError>,
)
    requires
        check_post(log0, log1, primary, backup, bound, r),
    ensures
        log1.len() <= log0.len() + 2,
        forall|i: int| log0.len() <= i < log1.len() ==> log1[i].bound == bound,
{
}

/// A probe succeeds exactly when one of its two attempts succeeded.
pub proof fn lemma_fallback_success(
    first: Result<(), ProbeError>,
    second: Result<(), ProbeError>,
)
    ensures
        fold_outcomes(first, second) is Ok <==> (first is Ok || second is Ok),
{
}

/// On double failure the probe reports the primary attempt's error, never the
/// backup's and never a synthetic one.
pub proof fn lemma_double_failure_reports_primary(
    first: Result<(), ProbeError>,
    second: Result<(), ProbeError>,
)
    requires
        first is Err,
        second is Err,
    ensures
        fold_outcomes(first, second) == first,
{
}

/// When the primary attempt succeeds, the probe succeeds at once and every
/// attempt the probe made contacted the primary endpoint: the backup is never
/// contacted.
pub proof fn lemma_primary_success_skips_backup(
    log0: Seq<Attempt>,
    log1: Seq<Attempt>,
    primary: Seq<char>,
    backup: Seq<char>,
    bound: Option<u64>,
    r: Result<(), ProbeError>,
)
    requires
        check_post(log0, log1, primary, backup, bound, r),
        log1[log0.len() as int].outcome is Ok,
    ensures
        log1.len() == log0.len() + 1,
        r is Ok,
        forall|i: int| log0.len() <= i < log1.len() ==> log1[i].target == primary,
{
}

/// Fallback correctness: if the primary attempt failed but the backup attempt
/// succeeded, the probe as a whole succeeds.
pub proof fn lemma_backup_rescues(
    log0: Seq<Attempt>,
    log1: Seq<Attempt>,
    primary: Seq<char>,
    backup: Seq<char>,
    bound: Option<u64>,
    r: Result<(), ProbeError>,
)
    requires
        check_post(log0, log1, primary, backup, bound, r),
        log1.len() == log0.len() + 2,
        log1[log0.len() as int + 1].outcome is Ok,
    ensures
        r is Ok,
        log1[log0.len() as int].outcome is Err,
{
}

/// A probe's result is a function of the attempt outcomes alone: two probes
/// over the same endpoints and bound that observe the same outcomes report
/// the same result. Repeated probes under an unchanged network therefore
/// agree.
pub proof fn lemma_probe_deterministic(
    log0a: Seq<Attempt>,
    log1a: Seq<Attempt>,
    ra: Result<(), ProbeError>,
    log0b: Seq<Attempt>,
    log1b: Seq<Attempt>,
    rb: Result<(), ProbeError>,
    primary: Seq<char>,
    backup: Seq<char>,
    bound: Option<u64>,
)
    requires
        check_post(log0a, log1a, primary, backup, bound, ra),
        check_post(log0b, log1b, primary, backup, bound, rb),
        log1a[log0a.len() as int].outcome == log1b[log0b.len() as int].outcome,
        log1a.len() == log0a.len() + 2 ==> log1a[log0a.len() as int + 1].outcome
            == log1b[log0b.len() as int + 1].outcome,
    ensures
        ra == rb,
{
}

} // verus!
