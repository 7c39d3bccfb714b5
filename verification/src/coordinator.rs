//! The export coordinator: sequences resolution, registry lookup and
//! encoding, short-circuiting on the first failure, and normalizes
//! every failure into the closed error taxonomy.
//!
//! Order of checks, pinned: the upstream result is examined first, the
//! dialect second. A request for an absent work reports the missing
//! work even when its dialect pair is unregistered.

use vstd::prelude::*;

use crate::dialect::is_supported;
use crate::dialect::spec_content_type;
use crate::dialect::spec_supported;
use crate::dialect::Dialect;
use crate::dialect::FormatFamily;
use crate::encode::encode;
use crate::encode::spec_render;
use crate::error::ExportError;
use crate::model::Work;
use crate::resolver::resolve_outcomes;
use crate::resolver::spec_attempts;
use crate::resolver::spec_resolve;
use crate::resolver::FetchOutcome;
use crate::validate::spec_missing;

verus! {

/// What an export request addresses: one work, or a page of the works
/// of one publisher.
#[derive(Clone, Copy, Debug, PartialEq, Eq, Structural)]
pub enum RequestTarget {
    WorkById(u128),
    Collection { publisher_id: u128, limit: u32, offset: u32 },
}

/// One export request: a target and the requested pair. Built per call
/// and owned by the coordinator for the call's lifetime.
#[derive(Clone, Copy, Debug, PartialEq, Eq, Structural)]
pub struct ExportRequest {
    pub target: RequestTarget,
    pub family: FormatFamily,
    pub dialect: Dialect,
}

/// What a successful export hands the boundary layer: the rendered
/// body, its content type, and an echo of the originating request.
#[derive(Debug, PartialEq, Eq)]
pub struct EncodedOutput {
    pub body: String,
    pub content_type: String,
    pub request: ExportRequest,
}

/// Carries an already-resolved upstream result through registry lookup
/// and encoding. A failed resolution is passed through unchanged,
/// before the dialect pair is even examined; a resolved aggregate then
/// goes through registry lookup and the encoder.
pub fn export_resolved(request: &ExportRequest, fetched: Result<Work, ExportError>) -> (r: Result<
    EncodedOutput,
    ExportError,
>)
    requires
        fetched matches Ok(w) ==> w.wf(),
    ensures
        fetched matches Err(e) ==> (r matches Err(e2) && e2 == e),
        fetched matches Ok(w) && !spec_supported(request.family, request.dialect) ==> (r matches Err(
            ExportError::UnsupportedDialect { family: f, dialect: d },
        ) && f == request.family && d == request.dialect),
        fetched matches Ok(w) ==> ((spec_supported(request.family, request.dialect)
            && spec_missing(w, request.family, request.dialect).len() == 0) ==> (r matches Ok(out)
            && out.body@ == spec_render(w, request.family, request.dialect) && out.content_type@
            == spec_content_type(request.family) && out.request == *request)),
        fetched matches Ok(w) ==> ((spec_supported(request.family, request.dialect)
            && spec_missing(w, request.family, request.dialect).len() > 0) ==> (r matches Err(
            ExportError::ValidationFailed { fields },
        ) && fields@ == spec_missing(w, request.family, request.dialect))),
{
    let w = match fetched {
        Ok(w) => w,
        Err(e) => {
            return Err(e);
        },
    };
    if !is_supported(request.family, request.dialect) {
        return Err(
            ExportError::UnsupportedDialect { family: request.family, dialect: request.dialect },
        );
    }
    match encode(&w, request.family, request.dialect) {
        Ok(payload) => Ok(
            EncodedOutput {
                body: payload.body,
                content_type: payload.content_type,
                request: *request,
            },
        ),
        Err(e) => Err(e),
    }
}

/// Every aggregate an outcome sequence can hand over is well formed.
pub open spec fn outcomes_wf(outs: Seq<FetchOutcome>) -> bool {
    forall|i: int|
        0 <= i < outs.len() ==> ((#[trigger] outs[i]) matches FetchOutcome::Found(w) ==> w.wf())
}

proof fn lemma_resolve_wf(outs: Seq<FetchOutcome>, budget: nat)
    requires
        outcomes_wf(outs),
    ensures
        spec_resolve(outs, budget) matches Ok(w) ==> w.wf(),
    decreases outs.len(),
{
    if outs.len() > 0 && budget > 0 {
        match outs[0] {
            FetchOutcome::Transient => {
                assert forall|i: int|
                    0 <= i < outs.drop_first().len() implies ((#[trigger] outs.drop_first()[i]) matches FetchOutcome::Found(
                    w,
                ) ==> w.wf()) by {
                    assert(outs.drop_first()[i] == outs[i + 1]);
                }
                lemma_resolve_wf(outs.drop_first(), (budget - 1) as nat);
            },
            _ => {},
        }
    }
}

/// The whole pipeline over a replayed sequence of fetch outcomes:
/// resolve under the retry budget, then look up the dialect, then
/// encode. Returns the outcome and how many fetch attempts were made.
pub fn export_outcomes(request: &ExportRequest, outcomes: Vec<FetchOutcome>, max_attempts: u8) -> (r:
    (Result<EncodedOutput, ExportError>, usize))
    requires
        outcomes_wf(outcomes@),
    ensures
        r.1 == spec_attempts(outcomes@, max_attempts as nat),
        r.1 <= max_attempts,
        spec_resolve(outcomes@, max_attempts as nat) matches Err(e) ==> (r.0 matches Err(e2) && e2
            == e),
        spec_resolve(outcomes@, max_attempts as nat) matches Ok(w) && !spec_supported(
            request.family,
            request.dialect,
        ) ==> (r.0 matches Err(ExportError::UnsupportedDialect { family: f, dialect: d }) && f
            == request.family && d == request.dialect),
        spec_resolve(outcomes@, max_attempts as nat) matches Ok(w) ==> ((spec_supported(
            request.family,
            request.dialect,
        ) && spec_missing(w, request.family, request.dialect).len() == 0) ==> (r.0 matches Ok(out)
            && out.body@ == spec_render(w, request.family, request.dialect) && out.content_type@
            == spec_content_type(request.family) && out.request == *request)),
        spec_resolve(outcomes@, max_attempts as nat) matches Ok(w) ==> ((spec_supported(
            request.family,
            request.dialect,
        ) && spec_missing(w, request.family, request.dialect).len() > 0) ==> (r.0 matches Err(
            ExportError::ValidationFailed { fields },
        ) && fields@ == spec_missing(w, request.family, request.dialect))),
{
    proof {
        lemma_resolve_wf(outcomes@, max_attempts as nat);
    }
    let (fetched, attempts) = resolve_outcomes(outcomes, max_attempts);
    (export_resolved(request, fetched), attempts)
}

/// The name that an upstream function gives to a parsed work identity:
/// the 128-bit value of the identifier text, when the text is a form
/// the identifier syntax admits.
pub uninterp spec fn parsed_uuid(s: Seq<char>) -> Option<u128>;

/// Relies on uuid::Uuid::parse_str and uuid::Uuid::as_u128: whether the
/// text parses, and the value it denotes, depend on the text alone.
#[verifier::external_body]
fn parse_uuid_str(s: &str) -> (r: Option<u128>)
    ensures
        r == parsed_uuid(s@),
{
    uuid::Uuid::parse_str(s).ok().map(|u| u.as_u128())
}

/// Builds a single-work export request from an identifier in text
/// form: the request carries the parsed identity and the requested
/// pair, and nothing is built from text the identifier syntax rejects.
pub fn work_request_from_text(id_text: &str, family: FormatFamily, dialect: Dialect) -> (r: Option<
    ExportRequest,
>)
    ensures
        match parsed_uuid(id_text@) {
            Some(id) => r matches Some(q) && q.target == RequestTarget::WorkById(id) && q.family
                == family && q.dialect == dialect,
            None => r is None,
        },
{
    match parse_uuid_str(id_text) {
        Some(id) => Some(ExportRequest { target: RequestTarget::WorkById(id), family, dialect }),
        None => None,
    }
}

} // verus!
