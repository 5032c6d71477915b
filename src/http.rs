//! Requests that the library asks its caller to send, and what came of them.
use vstd::prelude::*;
use vstd::string::*;

verus! {

/// The HTTP methods this client uses; `Propfind` and `Report` are WebDAV's.
#[derive(Clone, Copy, Debug, PartialEq, Eq, Structural)]
pub enum HttpMethod {
    Get,
    Put,
    Delete,
    Propfind,
    Report,
}

impl HttpMethod {
    pub open spec fn name_spec(self) -> Seq<char> {
        match self {
            HttpMethod::Get => "GET"@,
            HttpMethod::Put => "PUT"@,
            HttpMethod::Delete => "DELETE"@,
            HttpMethod::Propfind => "PROPFIND"@,
            HttpMethod::Report => "REPORT"@,
        }
    }

    /// The method's token as it stands on the request line.
    pub fn name(self) -> (r: &'static str)
        ensures
            r@ == self.name_spec(),
    {
        match self {
            HttpMethod::Get => "GET",
            HttpMethod::Put => "PUT",
            HttpMethod::Delete => "DELETE",
            HttpMethod::Propfind => "PROPFIND",
            HttpMethod::Report => "REPORT",
        }
    }
}

/// One request, to be sent with basic authentication by the caller.
#[derive(Clone, Debug)]
pub struct HttpRequest {
    pub method: HttpMethod,
    pub url: String,
    pub headers: Vec<(String, String)>,
    pub body: Option<String>,
}

/// What came of sending a request.
#[derive(Clone, Debug)]
pub enum HttpOutcome {
    /// The request could not be sent.
    NotSent,
    /// A reply came; its body is absent where it could not be read.
    Received { status: u16, body: Option<String> },
}

/// A header line with the given name and value.
pub fn header(name: &str, value: &str) -> (r: (String, String))
    ensures
        r.0@ == name@,
        r.1@ == value@,
{
    (String::from_str(name), String::from_str(value))
}

/// The concatenation of `a` and `b`.
pub fn concat(a: &str, b: &str) -> (r: String)
    ensures
        r@ == a@ + b@,
{
    let mut s = String::from_str(a);
    s.append(b);
    s
}

} // verus!
