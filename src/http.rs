use vstd::prelude::*;
use crate::error::SessionError;
use http_body_util::Empty;
use hyper::body::Bytes;
use hyper::Request;

verus! {

#[verifier::external_type_specification]
#[verifier::external_body]
#[verifier::reject_recursive_types(T)]
pub struct ExRequest<T>(hyper::Request<T>);

#[verifier::external_type_specification]
#[verifier::external_body]
#[verifier::reject_recursive_types(D)]
pub struct ExEmpty<D>(http_body_util::Empty<D>);

#[verifier::external_type_specification]
#[verifier::external_body]
pub struct ExBytes(hyper::body::Bytes);

#[verifier::external_type_specification]
#[verifier::external_body]
pub struct ExHttpError(hyper::http::Error);

/// Whether the HTTP request builder accepts `uri` as a URI and every pair of
/// `headers` as a header name and value.
pub uninterp spec fn request_builds(uri: Seq<char>, headers: Seq<(Seq<char>, Seq<char>)>) -> bool;

/// The text of each name and value pair.
pub open spec fn header_views(hs: Seq<(String, String)>) -> Seq<(Seq<char>, Seq<char>)> {
    hs.map_values(|h: (String, String)| (h.0@, h.1@))
}

/// Relies on http's `Request::builder`, with `Builder::uri`, `Builder::header`
/// and `Builder::body`: the builder keeps the first error met while parsing
/// the URI and each header name and value, and `body` returns it or the
/// request. Whether one comes depends on the text alone.
#[verifier::external_body]
fn http_request(uri: &str, headers: &Vec<(String, String)>) -> (r: Result<
    Request<Empty<Bytes>>,
    hyper::http::Error,
>)
    ensures
        r is Ok <==> request_builds(uri@, header_views(headers@)),
{
    let mut builder = Request::builder().uri(uri);
    for (name, value) in headers {
        builder = builder.header(name.as_str(), value.as_str());
    }
    builder.body(Empty::<Bytes>::new())
}

/// The user agent announced on every request.
pub const USER_AGENT: &'static str =
    "Mozilla/5.0 (X11; Linux x86_64) AppleWebKit/537.36 (KHTML, like Gecko) Chrome/114.0.0.0 Safari/537.36";

/// The only status a fetch may end with.
pub const STATUS_OK: u16 = 200;

/// The headers of the one request a session sends, in order: the host, any
/// media type, no compression (committed ranges must match the wire bytes),
/// a closing connection and the fixed user agent.
pub open spec fn request_header_spec(domain: Seq<char>) -> Seq<(Seq<char>, Seq<char>)> {
    seq![
        ("Host"@, domain),
        ("Accept"@, "*/*"@),
        ("Accept-Encoding"@, "identity"@),
        ("Connection"@, "close"@),
        ("User-Agent"@, USER_AGENT@),
    ]
}

fn header(name: &str, value: &str) -> (r: (String, String))
    ensures
        r.0@ == name@,
        r.1@ == value@,
{
    (name.to_owned(), value.to_owned())
}

/// The request headers for a fetch from `domain`, as name and value pairs.
pub fn request_headers(domain: &str) -> (r: Vec<(String, String)>)
    ensures
        r@.len() == 5,
        forall|i: int|
            0 <= i < 5 ==> (#[trigger] r@[i]).0@ == request_header_spec(domain@)[i].0 && r@[i].1@
                == request_header_spec(domain@)[i].1,
{
    let mut v: Vec<(String, String)> = Vec::new();
    v.push(header("Host", domain));
    v.push(header("Accept", "*/*"));
    v.push(header("Accept-Encoding", "identity"));
    v.push(header("Connection", "close"));
    v.push(header("User-Agent", USER_AGENT));
    v
}

/// The one request of a session: `uri` fetched from `domain` with the fixed
/// headers and an empty body. A URI or domain the builder refuses is `Config`.
pub fn build_request(domain: &str, uri: &str) -> (r: Result<Request<Empty<Bytes>>, SessionError>)
    ensures
        r is Ok <==> request_builds(uri@, request_header_spec(domain@)),
        r matches Err(e) ==> e == SessionError::Config,
{
    let headers = request_headers(domain);
    assert(header_views(headers@) =~= request_header_spec(domain@));
    match http_request(uri, &headers) {
        Ok(req) => Ok(req),
        Err(_) => Err(SessionError::Config),
    }
}

/// Accepts status 200 only; any other status is `UnexpectedStatus`.
pub fn check_status(status: u16) -> (r: Result<(), SessionError>)
    ensures
        r is Ok <==> status == 200,
        status != 200 ==> r == Err::<(), SessionError>(SessionError::UnexpectedStatus(status)),
{
    if status == STATUS_OK {
        Ok(())
    } else {
        Err(SessionError::UnexpectedStatus(status))
    }
}

} // verus!
