//! The request-local state that lives from dispatch to resolution, and what
//! happens when the wrapped call resolves.
use vstd::prelude::*;
use crate::method::{label_from_method, method_label, HttpMethod};
use crate::metrics::ExposedMetrics;
use crate::types::{status_code_of, status_of, HttpResponse};

verus! {

/// What an in-flight request keeps for its metrics: the verb's label, an owned
/// copy of the URI, and the instant at which it was dispatched.
pub struct RequestSnapshot {
    pub method: &'static str,
    pub uri: http::Uri,
    pub start: std::time::Instant,
}

/// `snap` is what dispatching a request with verb `verb` and URI `uri` keeps.
pub open spec fn captures(verb: HttpMethod, uri: http::Uri, snap: RequestSnapshot) -> bool {
    &&& snap.method@ == method_label(verb)
    &&& snap.uri == uri
}

/// Resolving `snap` with the wrapped call's `outcome` hands back `result` and
/// reports `record`: the outcome itself, and a record of the snapshot's label
/// and URI with the response's status code exactly when the outcome is a
/// response.
pub open spec fn reports<E>(
    snap: RequestSnapshot,
    outcome: Result<HttpResponse, E>,
    result: Result<HttpResponse, E>,
    record: Option<ExposedMetrics>,
) -> bool {
    &&& result == outcome
    &&& record is Some <==> outcome is Ok
    &&& record matches Some(m) ==> {
        &&& m.uri == snap.uri
        &&& m.method == snap.method
        &&& m.status_code == status_of(outcome->Ok_0)
        &&& 100 <= m.status_code <= 999
    }
}

impl RequestSnapshot {
    /// Labels a request and reads the clock once: the start of its timing.
    /// Called before the request is delegated.
    pub fn capture(method: &HttpMethod, uri: http::Uri) -> (r: RequestSnapshot)
        ensures
            captures(*method, uri, r),
    {
        let label = label_from_method(method);
        RequestSnapshot { method: label, uri, start: std::time::Instant::now() }
    }

    /// The record of this request, for a response with `status_code` that
    /// came `elapsed_time` after the start.
    pub fn record(self, status_code: u16, elapsed_time: std::time::Duration) -> (r: ExposedMetrics)
        ensures
            r.uri == self.uri,
            r.method == self.method,
            r.status_code == status_code,
            r.elapsed_time == elapsed_time,
    {
        ExposedMetrics { uri: self.uri, method: self.method, status_code, elapsed_time }
    }

    /// Handles the outcome of the wrapped call. The outcome comes back
    /// unchanged; a response, and only a response, yields the metrics record
    /// of this request. Consuming the snapshot makes that record the only one.
    pub fn resolve<E>(self, outcome: Result<HttpResponse, E>) -> (r: (
        Result<HttpResponse, E>,
        Option<ExposedMetrics>,
    ))
        ensures
            reports(self, outcome, r.0, r.1),
    {
        match outcome {
            Ok(res) => {
                let elapsed_time = self.start.elapsed();
                let status_code = status_code_of(&res);
                let record = self.record(status_code, elapsed_time);
                (Ok(res), Some(record))
            },
            Err(err) => (Err(err), None),
        }
    }
}

/// The middleware is transparent: what the caller gets back is exactly what
/// the wrapped service produced, response or error.
pub proof fn lemma_transparency<E>(
    snap: RequestSnapshot,
    outcome: Result<HttpResponse, E>,
    result: Result<HttpResponse, E>,
    record: Option<ExposedMetrics>,
)
    requires
        reports(snap, outcome, result, record),
    ensures
        result == outcome,
{
}

/// A request that resolves to a response yields one record, whose label is
/// its verb's label, whose URI is its URI and whose status code is the
/// response's.
pub proof fn lemma_single_emission<E>(
    verb: HttpMethod,
    uri: http::Uri,
    snap: RequestSnapshot,
    outcome: Result<HttpResponse, E>,
    result: Result<HttpResponse, E>,
    record: Option<ExposedMetrics>,
)
    requires
        captures(verb, uri, snap),
        reports(snap, outcome, result, record),
        outcome is Ok,
    ensures
        record matches Some(m) && m.method@ == method_label(verb) && m.uri == uri
            && m.status_code == status_of(outcome->Ok_0),
{
}

/// A request whose wrapped call fails yields no record.
pub proof fn lemma_no_emission_on_failure<E>(
    snap: RequestSnapshot,
    outcome: Result<HttpResponse, E>,
    result: Result<HttpResponse, E>,
    record: Option<ExposedMetrics>,
)
    requires
        reports(snap, outcome, result, record),
        outcome is Err,
    ensures
        record is None,
{
}

/// Requests dispatched side by side and resolved in any order each yield
/// their own record when they succeed: as many records as successes, each with
/// the label and URI of its own request, and none for a failure.
pub proof fn lemma_one_record_per_request<E>(
    verbs: Seq<HttpMethod>,
    uris: Seq<http::Uri>,
    snaps: Seq<RequestSnapshot>,
    outcomes: Seq<Result<HttpResponse, E>>,
    results: Seq<Result<HttpResponse, E>>,
    records: Seq<Option<ExposedMetrics>>,
)
    requires
        uris.len() == verbs.len(),
        snaps.len() == verbs.len(),
        outcomes.len() == verbs.len(),
        results.len() == verbs.len(),
        records.len() == verbs.len(),
        forall|i: int| 0 <= i < verbs.len() ==> captures(verbs[i], uris[i], #[trigger] snaps[i]),
        forall|i: int|
            0 <= i < verbs.len() ==> reports(
                snaps[i],
                outcomes[i],
                results[i],
                #[trigger] records[i],
            ),
    ensures
        forall|i: int|
            0 <= i < verbs.len() ==> (#[trigger] records[i] is Some <==> outcomes[i] is Ok),
        forall|i: int|
            0 <= i < verbs.len() && #[trigger] outcomes[i] is Ok ==> (records[i] matches Some(m)
                && m.method@ == method_label(verbs[i]) && m.uri == uris[i]),
{
    assert forall|i: int| 0 <= i < verbs.len() && #[trigger] outcomes[i] is Ok implies (
    records[i] matches Some(m) && m.method@ == method_label(verbs[i]) && m.uri == uris[i]) by {
        assert(captures(verbs[i], uris[i], snaps[i]));
        assert(reports(snaps[i], outcomes[i], results[i], records[i]));
    }
}

} // verus!
