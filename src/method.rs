//! The closed set of request verbs and their static labels.
use vstd::prelude::*;
use crate::types::{method_name, method_name_of};
use vstd::string::StringSliceAdditionalSpecFns;

verus! {

/// A request verb, as far as metrics labels tell verbs apart.
#[derive(Clone, Copy, Debug, PartialEq, Eq, Structural)]
pub enum HttpMethod {
    Connect,
    Delete,
    Get,
    Head,
    Options,
    Patch,
    Post,
    Put,
    Trace,
    /// Any extension verb outside the standard nine.
    Other,
}

/// The label that metrics records carry for a verb: its canonical upper-case
/// name, or `unknown` for an extension verb.
pub open spec fn method_label(m: HttpMethod) -> Seq<char> {
    match m {
        HttpMethod::Connect => "CONNECT"@,
        HttpMethod::Delete => "DELETE"@,
        HttpMethod::Get => "GET"@,
        HttpMethod::Head => "HEAD"@,
        HttpMethod::Options => "OPTIONS"@,
        HttpMethod::Patch => "PATCH"@,
        HttpMethod::Post => "POST"@,
        HttpMethod::Put => "PUT"@,
        HttpMethod::Trace => "TRACE"@,
        HttpMethod::Other => "unknown"@,
    }
}

/// The verb that a method name denotes. Names are case-sensitive: only the
/// nine canonical upper-case names denote standard verbs.
pub open spec fn verb_of_name(s: Seq<char>) -> HttpMethod {
    if s == "CONNECT"@ {
        HttpMethod::Connect
    } else if s == "DELETE"@ {
        HttpMethod::Delete
    } else if s == "GET"@ {
        HttpMethod::Get
    } else if s == "HEAD"@ {
        HttpMethod::Head
    } else if s == "OPTIONS"@ {
        HttpMethod::Options
    } else if s == "PATCH"@ {
        HttpMethod::Patch
    } else if s == "POST"@ {
        HttpMethod::Post
    } else if s == "PUT"@ {
        HttpMethod::Put
    } else if s == "TRACE"@ {
        HttpMethod::Trace
    } else {
        HttpMethod::Other
    }
}

/// Whether `s` is the canonical name of one of the nine standard verbs.
pub open spec fn is_standard_name(s: Seq<char>) -> bool {
    ||| s == "CONNECT"@
    ||| s == "DELETE"@
    ||| s == "GET"@
    ||| s == "HEAD"@
    ||| s == "OPTIONS"@
    ||| s == "PATCH"@
    ||| s == "POST"@
    ||| s == "PUT"@
    ||| s == "TRACE"@
}

/// Whether two strings hold the same characters.
fn same_text(a: &str, b: &str) -> (r: bool)
    ensures
        r == (a@ == b@),
{
    let x = a.as_bytes();
    let y = b.as_bytes();
    proof {
        vstd::utf8::encode_utf8_decode_utf8(a@);
        vstd::utf8::encode_utf8_decode_utf8(b@);
    }
    if x.len() != y.len() {
        return false;
    }
    let mut i: usize = 0;
    while i < x.len()
        invariant
            x@ == a.spec_bytes(),
            y@ == b.spec_bytes(),
            x@.len() == y@.len(),
            i <= x@.len(),
            forall|j: int| 0 <= j < i ==> x@[j] == y@[j],
        decreases x@.len() - i,
    {
        if x[i] != y[i] {
            return false;
        }
        i = i + 1;
    }
    assert(x@ =~= y@);
    true
}

impl HttpMethod {
    /// The verb that a method name denotes; any name but the nine canonical
    /// ones is an extension verb.
    pub fn from_name(name: &str) -> (r: HttpMethod)
        ensures
            r == verb_of_name(name@),
    {
        if same_text(name, "CONNECT") {
            HttpMethod::Connect
        } else if same_text(name, "DELETE") {
            HttpMethod::Delete
        } else if same_text(name, "GET") {
            HttpMethod::Get
        } else if same_text(name, "HEAD") {
            HttpMethod::Head
        } else if same_text(name, "OPTIONS") {
            HttpMethod::Options
        } else if same_text(name, "PATCH") {
            HttpMethod::Patch
        } else if same_text(name, "POST") {
            HttpMethod::Post
        } else if same_text(name, "PUT") {
            HttpMethod::Put
        } else if same_text(name, "TRACE") {
            HttpMethod::Trace
        } else {
            HttpMethod::Other
        }
    }

    /// The verb of a request method: the one that its name, as http gives it,
    /// denotes.
    pub fn of(method: &http::Method) -> (r: HttpMethod)
        ensures
            r == verb_of_name(method_name_of(*method)),
    {
        let name = method_name(method);
        HttpMethod::from_name(name)
    }
}

/// A request's label is its verb's canonical name when that is one of the nine
/// standard verbs, and `unknown` for every other name.
pub proof fn lemma_label_of_name(s: Seq<char>)
    ensures
        is_standard_name(s) ==> method_label(verb_of_name(s)) == s,
        !is_standard_name(s) ==> method_label(verb_of_name(s)) == "unknown"@,
{
}

/// Maps a verb to a label known at compile time, so that labelling a request
/// allocates nothing.
pub fn label_from_method(method: &HttpMethod) -> (r: &'static str)
    ensures
        r@ == method_label(*method),
{
    match *method {
        HttpMethod::Connect => "CONNECT",
        HttpMethod::Delete => "DELETE",
        HttpMethod::Get => "GET",
        HttpMethod::Head => "HEAD",
        HttpMethod::Options => "OPTIONS",
        HttpMethod::Patch => "PATCH",
        HttpMethod::Post => "POST",
        HttpMethod::Put => "PUT",
        HttpMethod::Trace => "TRACE",
        HttpMethod::Other => "unknown",
    }
}

} // verus!
