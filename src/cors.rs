//! Cross-origin headers attached to every response.
use vstd::prelude::*;
use vstd::string::StringExecFns;

verus! {

pub const ALLOW_ORIGIN: &'static str = "Access-Control-Allow-Origin";

pub const ALLOW_METHODS: &'static str = "Access-Control-Allow-Methods";

pub const ALLOW_HEADERS: &'static str = "Access-Control-Allow-Headers";

pub const ALLOW_CREDENTIALS: &'static str = "Access-Control-Allow-Credentials";

pub const ANY_ORIGIN: &'static str = "*";

pub const METHODS: &'static str = "GET, OPTIONS";

pub const HEADERS: &'static str = "Content-Type,X-Sinsuan-Count-Url,X-Sinsuan-Id";

pub const CREDENTIALS: &'static str = "true";

/// The cross-origin policy of the service.
pub struct CORS;

/// Names and values of the headers for a request from `origin`.
pub open spec fn cors_headers(origin: Option<Seq<char>>) -> Seq<(Seq<char>, Seq<char>)> {
    seq![
        (ALLOW_ORIGIN@, match origin {
            Some(o) => o,
            None => ANY_ORIGIN@,
        }),
        (ALLOW_METHODS@, METHODS@),
        (ALLOW_HEADERS@, HEADERS@),
        (ALLOW_CREDENTIALS@, CREDENTIALS@),
    ]
}

/// Header pairs as plain texts.
pub open spec fn header_texts(h: Seq<(String, String)>) -> Seq<(Seq<char>, Seq<char>)> {
    h.map_values(|p: (String, String)| (p.0@, p.1@))
}

fn header(name: &str, value: &str) -> (r: (String, String))
    ensures
        r.0@ == name@,
        r.1@ == value@,
{
    (String::from_str(name), String::from_str(value))
}

impl CORS {
    /// The headers for a response to a request whose `Origin` header is
    /// `origin`: that origin (any origin when absent) with credentials, for
    /// GET and OPTIONS, allowing the service's own request headers.
    pub fn response_headers(&self, origin: Option<&str>) -> (r: Vec<(String, String)>)
        ensures
            header_texts(r@) == cors_headers(
                match origin {
                    Some(o) => Some(o@),
                    None => None,
                },
            ),
    {
        let allowed = match origin {
            Some(o) => o,
            None => ANY_ORIGIN,
        };
        let mut v: Vec<(String, String)> = Vec::new();
        v.push(header(ALLOW_ORIGIN, allowed));
        v.push(header(ALLOW_METHODS, METHODS));
        v.push(header(ALLOW_HEADERS, HEADERS));
        v.push(header(ALLOW_CREDENTIALS, CREDENTIALS));
        proof {
            assert(header_texts(v@) =~= cors_headers(
                match origin {
                    Some(o) => Some(o@),
                    None => None,
                },
            ));
        }
        v
    }
}

} // verus!
