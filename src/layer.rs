//! The decorator factory and the instrumented service it builds.
use vstd::prelude::*;

verus! {

/// A wrapped service together with the sink its requests report to.
#[derive(Clone)]
pub struct HttpMetrics<S, ME> {
    pub service: S,
    pub exposer: ME,
}

impl<S, ME> HttpMetrics<S, ME> {
    pub fn new(service: S, exposer: ME) -> (r: Self)
        ensures
            r.service == service,
            r.exposer == exposer,
    {
        HttpMetrics { service, exposer }
    }
}

/// Holds a sink and wraps any service into an instrumented one that reports
/// to a handle of it.
#[derive(Clone)]
pub struct HttpMetricsLayer<ME> {
    pub exposer: ME,
}

impl<ME> HttpMetricsLayer<ME> {
    pub fn new(exposer: ME) -> (r: Self)
        ensures
            r.exposer == exposer,
    {
        HttpMetricsLayer { exposer }
    }

    /// Wraps `inner`; the new service reports to a clone of this layer's sink.
    pub fn layer<S>(&self, inner: S) -> (r: HttpMetrics<S, ME>)
        where
            ME: Clone,
        ensures
            r.service == inner,
            vstd::pervasive::cloned(self.exposer, r.exposer),
    {
        HttpMetrics::new(inner, self.exposer.clone())
    }
}

} // verus!
