//! The HTTP values that pass through the middleware. They are opaque here: the
//! middleware carries them and reads only a response's status code.
use vstd::prelude::*;

verus! {

#[verifier::external_type_specification]
#[verifier::external_body]
#[verifier::reject_recursive_types(T)]
pub struct ExRequest<T>(http::Request<T>);

#[verifier::external_type_specification]
#[verifier::external_body]
#[verifier::reject_recursive_types(T)]
pub struct ExResponse<T>(http::Response<T>);

#[verifier::external_type_specification]
#[verifier::external_body]
pub struct ExBody(axum::body::Body);

#[verifier::external_type_specification]
#[verifier::external_body]
pub struct ExMethod(http::Method);

#[verifier::external_type_specification]
#[verifier::external_body]
pub struct ExUri(http::Uri);

#[verifier::external_type_specification]
#[verifier::external_body]
pub struct ExInstant(std::time::Instant);

/// A request as the wrapped service receives it.
pub type HttpRequest = http::Request<axum::body::Body>;

/// A response as the wrapped service produces it.
pub type HttpResponse = http::Response<axum::body::Body>;

/// Relies on std::time::Instant::now: reads the monotonic clock.
pub assume_specification[ std::time::Instant::now ]() -> std::time::Instant;

/// Relies on std::time::Instant::elapsed: the time since the instant, which a
/// `Duration` cannot make negative.
pub assume_specification[ std::time::Instant::elapsed ](i: &std::time::Instant) -> std::time::Duration;

/// The name that http gives a method.
pub uninterp spec fn method_name_of(m: http::Method) -> Seq<char>;

/// The status code that http reads off a response.
pub uninterp spec fn status_of(r: HttpResponse) -> u16;

/// Relies on http::Method::as_str: the method's name, which depends on the
/// method alone (the canonical upper-case one for a standard verb).
#[verifier::external_body]
pub(crate) fn method_name(m: &http::Method) -> (r: &str)
    ensures
        r@ == method_name_of(*m),
{
    m.as_str()
}

/// Relies on http::Response::status and http::StatusCode::as_u16: the
/// response's status code, and every `StatusCode` holds a number from 100 to
/// 999.
#[verifier::external_body]
pub(crate) fn status_code_of(res: &HttpResponse) -> (r: u16)
    ensures
        r == status_of(*res),
        100 <= r <= 999,
{
    res.status().as_u16()
}

} // verus!
