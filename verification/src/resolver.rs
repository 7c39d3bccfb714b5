//! The request resolver's decision kernel: how a sequence of upstream
//! fetch outcomes is turned into one aggregate or one terminal error,
//! under a bounded retry budget with exponential backoff, and the
//! stable ordering of fetched pages.

use vstd::prelude::*;

use crate::error::ExportError;
use crate::model::Work;

verus! {

/// What one upstream fetch attempt came back with. Transient failures
/// (connection loss, server-side unavailability) are the only retried
/// kind; a missing work and an uninterpretable response are terminal.
#[derive(Debug, PartialEq, Eq)]
pub enum FetchOutcome {
    Found(Work),
    Transient,
    Missing,
    Malformed,
}

/// The result of attempting fetches in order under a retry budget:
/// the first attempt decides unless it was transient, in which case
/// the next attempt is made while budget remains.
pub open spec fn spec_resolve(outs: Seq<FetchOutcome>, budget: nat) -> Result<Work, ExportError>
    decreases outs.len(),
{
    if outs.len() == 0 || budget == 0 {
        Err(ExportError::UpstreamUnavailable)
    } else {
        match outs[0] {
            FetchOutcome::Found(w) => Ok(w),
            FetchOutcome::Missing => Err(ExportError::NotFound),
            FetchOutcome::Malformed => Err(ExportError::MalformedUpstreamResponse),
            FetchOutcome::Transient => spec_resolve(outs.drop_first(), (budget - 1) as nat),
        }
    }
}

/// How many attempts the resolver makes on that outcome sequence.
pub open spec fn spec_attempts(outs: Seq<FetchOutcome>, budget: nat) -> nat
    decreases outs.len(),
{
    if outs.len() == 0 || budget == 0 {
        0
    } else {
        match outs[0] {
            FetchOutcome::Transient => 1 + spec_attempts(outs.drop_first(), (budget - 1) as nat),
            _ => 1,
        }
    }
}

/// Replays a sequence of fetch outcomes through the retry rule: each
/// attempt consumes the next outcome; a found aggregate or a terminal
/// failure ends the run at once, a transient failure is retried until
/// the budget is spent. Returns the resolution and the number of
/// attempts made, which never exceeds the budget.
pub fn resolve_outcomes(outcomes: Vec<FetchOutcome>, max_attempts: u8) -> (r: (
    Result<Work, ExportError>,
    usize,
))
    ensures
        r.0 == spec_resolve(outcomes@, max_attempts as nat),
        r.1 == spec_attempts(outcomes@, max_attempts as nat),
        r.1 <= max_attempts,
{
    let ghost orig = outcomes@;
    let mut rest = outcomes;
    let mut attempts: usize = 0;
    let max = max_attempts as usize;
    while attempts < max && rest.len() > 0
        invariant
            orig == outcomes@,
            attempts <= max,
            max == max_attempts,
            spec_resolve(orig, max_attempts as nat) == spec_resolve(
                rest@,
                (max - attempts) as nat,
            ),
            spec_attempts(orig, max_attempts as nat) == attempts + spec_attempts(
                rest@,
                (max - attempts) as nat,
            ),
            attempts < max || rest@.len() == 0 || spec_attempts(rest@, (max - attempts) as nat)
                == 0,
        decreases rest.len(),
    {
        let ghost pre = rest@;
        let o = rest.remove(0);
        proof {
            assert(rest@ =~= pre.drop_first());
        }
        attempts += 1;
        match o {
            FetchOutcome::Found(w) => {
                return (Ok(w), attempts);
            },
            FetchOutcome::Missing => {
                return (Err(ExportError::NotFound), attempts);
            },
            FetchOutcome::Malformed => {
                return (Err(ExportError::MalformedUpstreamResponse), attempts);
            },
            FetchOutcome::Transient => {},
        }
    }
    (Err(ExportError::UpstreamUnavailable), attempts)
}

/// Backoff before the next retry, by the number of attempts already
/// made: starts at a tenth of a second and doubles, capped after the
/// seventh attempt.
pub open spec fn spec_backoff_ms(attempts_made: nat) -> nat {
    if attempts_made == 0 {
        100
    } else if attempts_made == 1 {
        200
    } else if attempts_made == 2 {
        400
    } else if attempts_made == 3 {
        800
    } else if attempts_made == 4 {
        1600
    } else if attempts_made == 5 {
        3200
    } else if attempts_made == 6 {
        6400
    } else {
        12800
    }
}

/// Computes the backoff delay in milliseconds before the next retry.
pub fn backoff_ms(attempts_made: u8) -> (r: u64)
    ensures
        r == spec_backoff_ms(attempts_made as nat),
{
    match attempts_made {
        0 => 100,
        1 => 200,
        2 => 400,
        3 => 800,
        4 => 1600,
        5 => 3200,
        6 => 6400,
        _ => 12800,
    }
}

/// Whether another attempt may be made after a transient failure.
pub fn may_retry(attempts_made: u8, max_attempts: u8) -> (r: bool)
    ensures
        r == (attempts_made < max_attempts),
{
    attempts_made < max_attempts
}

/// The most recent update timestamp over a fetched page: the maximum,
/// or nothing on an empty page.
pub fn latest_update(works: &Vec<Work>) -> (r: Option<i64>)
    ensures
        (r is None) <==> works@.len() == 0,
        r matches Some(t) ==> (exists|i: int|
            0 <= i < works@.len() && (#[trigger] works@[i]).updated_at == t) && (forall|i: int|
            0 <= i < works@.len() ==> (#[trigger] works@[i]).updated_at <= t),
{
    if works.len() == 0 {
        return None;
    }
    let mut best: i64 = works[0].updated_at;
    let mut i: usize = 1;
    while i < works.len()
        invariant
            1 <= i <= works@.len(),
            exists|k: int| 0 <= k < i && (#[trigger] works@[k]).updated_at == best,
            forall|k: int| 0 <= k < i ==> (#[trigger] works@[k]).updated_at <= best,
        decreases works.len() - i,
    {
        if works[i].updated_at > best {
            best = works[i].updated_at;
            proof {
                assert((works@[i as int]).updated_at == best);
            }
        }
        i += 1;
    }
    Some(best)
}

} // verus!
