//! The record handed to a sink, and the sink's contract.
use vstd::prelude::*;
use crate::types::{HttpRequest, HttpResponse};

verus! {

/// What the middleware measures of one request that completed with a response.
pub struct ExposedMetrics {
    pub uri: http::Uri,
    pub method: &'static str,
    pub status_code: u16,
    pub elapsed_time: std::time::Duration,
}

/// A metrics backend. The middleware calls `intercerp_request` before it
/// delegates a request, `intercerp_response` once a response is there, and
/// then `expose` with the default record of that request.
pub trait MetricsExposer {
    fn intercerp_response(&mut self, _resp: &HttpResponse) {
    }

    fn intercerp_request(&mut self, _req: &HttpRequest) {
    }

    fn expose(&self, metrics: ExposedMetrics);
}

} // verus!
