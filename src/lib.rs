//! Request-instrumentation middleware: times each request handled by a wrapped
//! service and hands one metrics record per successful response to a sink.
pub mod future;
pub mod layer;
pub mod method;
pub mod metrics;
pub mod types;

pub use future::RequestSnapshot;
pub use layer::{HttpMetrics, HttpMetricsLayer};
pub use method::{label_from_method, HttpMethod};
pub use metrics::{ExposedMetrics, MetricsExposer};
pub use types::{HttpRequest, HttpResponse};
