//! A request as it is handed to the network: method, URL, headers and an
//! optional JSON body.

use crate::auth::{auth_header, auth_header_of, ChromaAuthMethod, Header};
use vstd::prelude::*;

verus! {

/// A JSON value of serde_json. The library carries it from the caller to the
/// request and never looks inside.
#[verifier::external_type_specification]
#[verifier::external_body]
pub struct ExJsonValue(serde_json::Value);

/// The HTTP methods that the library uses.
#[derive(Clone, Copy, Debug, PartialEq, Eq, Structural)]
pub enum HttpMethod {
    Get,
    Post,
    Put,
    Delete,
}

/// One request, ready to be sent on a pooled handle.
#[derive(Debug)]
pub struct PendingRequest {
    pub method: HttpMethod,
    pub url: String,
    /// The headers to set, in this order.
    pub headers: Vec<Header>,
    /// The payload, serialised as JSON by whoever sends the request.
    pub json_body: Option<serde_json::Value>,
}

/// The views of a sequence of headers.
pub open spec fn header_views(headers: Seq<Header>) -> Seq<(Seq<char>, Seq<char>)> {
    headers.map_values(|h: Header| h@)
}

/// The header that announces a JSON payload.
pub open spec fn json_content_type() -> (Seq<char>, Seq<char>) {
    ("Content-Type"@, "application/json"@)
}

/// The headers of a request: the authentication header where the method has
/// one, then the content type where there is a JSON body.
pub open spec fn request_headers_of(auth: ChromaAuthMethod, has_body: bool) -> Seq<
    (Seq<char>, Seq<char>),
> {
    let auth_part = match auth_header_of(auth) {
        Some(header) => seq![header],
        None => Seq::empty(),
    };
    if has_body {
        auth_part.push(json_content_type())
    } else {
        auth_part
    }
}

/// The headers that a request carries, in the order in which they are set.
pub fn request_headers(auth: &ChromaAuthMethod, has_body: bool) -> (headers: Vec<Header>)
    ensures
        header_views(headers@) == request_headers_of(*auth, has_body),
{
    let mut headers: Vec<Header> = Vec::new();
    match auth_header(auth) {
        Some(header) => {
            headers.push(header);
        },
        None => {},
    }
    if has_body {
        headers.push(
            Header { name: "Content-Type".to_owned(), value: "application/json".to_owned() },
        );
    }
    assert(header_views(headers@) =~= request_headers_of(*auth, has_body));
    headers
}

/// A request with the given method, URL and body, and the headers that the
/// authentication method and the body call for.
pub fn prepare(
    method: HttpMethod,
    url: String,
    auth: &ChromaAuthMethod,
    json_body: Option<serde_json::Value>,
) -> (request: PendingRequest)
    ensures
        request.method == method,
        request.url == url,
        header_views(request.headers@) == request_headers_of(*auth, json_body.is_some()),
        request.json_body == json_body,
{
    let headers = request_headers(auth, json_body.is_some());
    PendingRequest { method, url, headers, json_body }
}

} // verus!
