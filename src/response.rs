//! Checking the coordinator's results against the submitted batch, and
//! assembling the response envelope with timing and usage.

use vstd::prelude::*;

use crate::admission::PolicyViolation;
use crate::points::{convert_groups, convert_points, public_points, PointGroup, PointGroupInternal, ScoredPoint, ScoredPointInternal};
use crate::usage::{report_of, HardwareUsage, HwMeasurementAcc, InferenceUsage, UsageAccumulator};

verus! {

/// How the storage coordinator failed or broke its contract.
#[derive(Debug)]
pub enum ServiceFailure {
    /// The coordinator reported an error.
    Coordinator(String),
    /// A single query came back with no response at all.
    NoResponse,
    /// The number of responses differs from the number of queries sent.
    CountMismatch { expected: usize, returned: usize },
    /// An outcome arrived that does not fit the request's current step.
    UnexpectedEvent,
}

/// Why a request failed. Every failure ends the whole request.
#[derive(Debug)]
pub enum QueryError {
    /// The query content could not be normalized or resolved.
    Conversion(String),
    /// Admission control refused the request.
    Policy(PolicyViolation),
    /// The coordinator failed, or returned what does not match the request.
    Service(ServiceFailure),
    /// The caller's deadline passed during dispatch.
    Timeout,
}

/// The ranked points answering one query.
#[derive(Debug)]
pub struct QueryResponse {
    pub points: Vec<ScoredPoint>,
}

/// The groups answering one grouped query.
#[derive(Debug)]
pub struct GroupsResult {
    pub groups: Vec<PointGroup>,
}

/// The answer of a single query: the coordinator must return exactly one
/// ranked list; none at all is never taken for an empty answer.
pub fn single_response(results: Vec<Vec<ScoredPointInternal>>) -> (r: Result<QueryResponse, QueryError>)
    ensures
        r is Ok <==> results@.len() == 1,
        r is Ok ==> r->Ok_0.points@ == public_points(results@[0]@),
        results@.len() == 0 ==> r == Err::<QueryResponse, QueryError>(
            QueryError::Service(ServiceFailure::NoResponse),
        ),
        results@.len() > 1 ==> r == Err::<QueryResponse, QueryError>(
            QueryError::Service(ServiceFailure::CountMismatch { expected: 1, returned: results@.len() as usize }),
        ),
{
    let mut results = results;
    let n = results.len();
    if n == 0 {
        return Err(QueryError::Service(ServiceFailure::NoResponse));
    }
    if n > 1 {
        return Err(QueryError::Service(ServiceFailure::CountMismatch { expected: 1, returned: n }));
    }
    let points = results.pop().unwrap();
    Ok(QueryResponse { points: convert_points(points) })
}

/// The answers of a batch of `expected` queries, position by position: the
/// i-th response holds the i-th ranked list. A count that differs is an error,
/// never a shortened or padded answer.
pub fn batch_responses(expected: usize, results: Vec<Vec<ScoredPointInternal>>) -> (r: Result<Vec<QueryResponse>, QueryError>)
    ensures
        r is Ok <==> results@.len() == expected,
        r is Ok ==> r->Ok_0@.len() == expected && forall|i: int|
            0 <= i < expected ==> (#[trigger] r->Ok_0@[i]).points@ == public_points(results@[i]@),
        r is Err ==> r == Err::<Vec<QueryResponse>, QueryError>(
            QueryError::Service(ServiceFailure::CountMismatch { expected, returned: results@.len() as usize }),
        ),
{
    let n = results.len();
    if n != expected {
        return Err(QueryError::Service(ServiceFailure::CountMismatch { expected, returned: n }));
    }
    let mut results = results;
    let ghost orig = results@;
    let mut rev: Vec<QueryResponse> = Vec::new();
    while results.len() > 0
        invariant
            results@.len() + rev@.len() == orig.len(),
            results@ == orig.subrange(0, results@.len() as int),
            forall|k: int|
                0 <= k < rev@.len() ==> (#[trigger] rev@[k]).points@ == public_points(orig[orig.len() - 1 - k]@),
        decreases results@.len(),
    {
        let p = results.pop().unwrap();
        rev.push(QueryResponse { points: convert_points(p) });
    }
    let mut out: Vec<QueryResponse> = Vec::new();
    while rev.len() > 0
        invariant
            rev@.len() + out@.len() == orig.len(),
            forall|k: int|
                0 <= k < rev@.len() ==> (#[trigger] rev@[k]).points@ == public_points(orig[orig.len() - 1 - k]@),
            forall|k: int| 0 <= k < out@.len() ==> (#[trigger] out@[k]).points@ == public_points(orig[k]@),
        decreases rev@.len(),
    {
        let p = rev.pop().unwrap();
        out.push(p);
    }
    Ok(out)
}

/// The answer of a grouped query: the coordinator's groups, converted and in
/// their order; nothing is regrouped here.
pub fn groups_response(groups: Vec<PointGroupInternal>) -> (r: GroupsResult)
    ensures
        r.groups@.len() == groups@.len(),
        forall|i: int|
            0 <= i < groups@.len() ==> #[trigger] r.groups@[i].id == groups@[i].id
                && r.groups@[i].hits@ == public_points(groups@[i].hits@),
{
    GroupsResult { groups: convert_groups(groups) }
}

/// The usage section of a response.
#[derive(Clone, Copy, Debug, PartialEq, Eq, Structural)]
pub struct Usage {
    pub hardware: HardwareUsage,
    pub inference: Option<InferenceUsage>,
}

/// What is sent back for a request: its outcome, the time it took in
/// microseconds, and its usage.
#[derive(Debug)]
pub struct ResponseEnvelope<T> {
    pub result: Result<T, QueryError>,
    pub time_micros: u64,
    pub usage: Usage,
}

#[verifier::external_type_specification]
#[verifier::external_body]
pub struct ExInstant(tokio::time::Instant);

/// Relies on tokio::time::Instant::elapsed: the time since `start`, in
/// microseconds.
#[verifier::external_body]
fn elapsed_micros(start: &tokio::time::Instant) -> (r: u64) {
    start.elapsed().as_micros() as u64
}

/// Assembles the envelope: the outcome as given, the time since `timing`
/// (taken when the request arrived), the hardware report always
/// (even when every counter is zero), and the inference report only when at
/// least one contribution was merged.
pub fn process_response_with_inference_usage<T>(
    result: Result<T, QueryError>,
    timing: &tokio::time::Instant,
    hw: &HwMeasurementAcc,
    inference: UsageAccumulator,
) -> (r: ResponseEnvelope<T>)
    ensures
        r.result == result,
        r.usage.hardware == hw.usage,
        r.usage.inference == report_of(inference),
        r.usage.inference is Some <==> inference.merged,
{
    let time_micros = elapsed_micros(timing);
    ResponseEnvelope {
        result,
        time_micros,
        usage: Usage { hardware: hw.to_report(), inference: inference.into_non_empty() },
    }
}

} // verus!
