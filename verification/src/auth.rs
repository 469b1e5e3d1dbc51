//! How a request authenticates itself: the closed set of methods, and the
//! header that each one adds.

use crate::text::push_str;
use base64::Engine;
use vstd::prelude::*;

verus! {

/// The header that carries a token.
#[derive(Clone, Debug)]
pub enum ChromaTokenHeader {
    /// `Authorization: Bearer <token>`
    Authorization,
    /// `X-Chroma-Token: <token>`
    XChromaToken,
}

/// The way requests authenticate themselves to the server.
#[derive(Clone, Debug)]
pub enum ChromaAuthMethod {
    /// No authentication.
    NoAuth,
    /// HTTP basic authentication.
    BasicAuth { username: String, password: String },
    /// A static token, sent in the header that `header` names.
    TokenAuth { token: String, header: ChromaTokenHeader },
}

impl Default for ChromaAuthMethod {
    fn default() -> (auth: Self)
        ensures
            auth == ChromaAuthMethod::NoAuth,
    {
        ChromaAuthMethod::NoAuth
    }
}

/// One request header.
#[derive(Clone, Debug)]
pub struct Header {
    pub name: String,
    pub value: String,
}

impl View for Header {
    type V = (Seq<char>, Seq<char>);

    open spec fn view(&self) -> (Seq<char>, Seq<char>) {
        (self.name@, self.value@)
    }
}

/// The standard base64 encoding, with padding, of a text's UTF-8 bytes.
pub uninterp spec fn base64_standard(text: Seq<char>) -> Seq<char>;

/// The base64 form of a text.
///
/// Trusted: this is `Engine::encode` of the base64 crate on its `STANDARD`
/// engine. The result is a function of the input alone, and the contract only
/// gives it its name. The crate gives up on inputs whose encoded length
/// overflows `usize`, which are longer than any `str` can be.
#[verifier::external_body]
fn base64_encode(text: &str) -> (encoded: String)
    ensures
        encoded@ == base64_standard(text@),
{
    base64::prelude::BASE64_STANDARD.encode(text)
}

/// What basic authentication encodes: the user name, a colon, the password.
pub open spec fn basic_credentials(username: Seq<char>, password: Seq<char>) -> Seq<char> {
    username + ":"@ + password
}

/// The header of basic authentication, given the encoded credentials.
pub open spec fn basic_header_of(encoded: Seq<char>) -> (Seq<char>, Seq<char>) {
    ("Authorization"@, "Basic "@ + encoded)
}

/// The header that carries a token.
pub open spec fn token_header_of(token: Seq<char>, header: ChromaTokenHeader) -> (
    Seq<char>,
    Seq<char>,
) {
    match header {
        ChromaTokenHeader::Authorization => ("Authorization"@, "Bearer "@ + token),
        ChromaTokenHeader::XChromaToken => ("X-Chroma-Token"@, token),
    }
}

/// The header that an authentication method adds to a request, if any.
pub open spec fn auth_header_of(auth: ChromaAuthMethod) -> Option<(Seq<char>, Seq<char>)> {
    match auth {
        ChromaAuthMethod::NoAuth => None,
        ChromaAuthMethod::BasicAuth { username, password } => Some(
            basic_header_of(base64_standard(basic_credentials(username@, password@))),
        ),
        ChromaAuthMethod::TokenAuth { token, header } => Some(token_header_of(token@, header)),
    }
}

/// The view of a header that may be absent.
pub open spec fn header_view(header: Option<Header>) -> Option<(Seq<char>, Seq<char>)> {
    match header {
        Some(h) => Some(h@),
        None => None,
    }
}

/// The header `Authorization: Basic <encoded>`.
pub fn basic_header(encoded: &str) -> (header: Header)
    ensures
        header@ == basic_header_of(encoded@),
{
    let mut value = "Basic ".to_owned();
    push_str(&mut value, encoded);
    Header { name: "Authorization".to_owned(), value }
}

/// The header that carries `token`: `Authorization: Bearer <token>` or
/// `X-Chroma-Token: <token>`.
pub fn token_header(token: &str, header: &ChromaTokenHeader) -> (result: Header)
    ensures
        result@ == token_header_of(token@, *header),
{
    match header {
        ChromaTokenHeader::Authorization => {
            let mut value = "Bearer ".to_owned();
            push_str(&mut value, token);
            Header { name: "Authorization".to_owned(), value }
        },
        ChromaTokenHeader::XChromaToken => Header {
            name: "X-Chroma-Token".to_owned(),
            value: token.to_owned(),
        },
    }
}

/// The header that the method adds to a request: none, or exactly one.
pub fn auth_header(auth: &ChromaAuthMethod) -> (header: Option<Header>)
    ensures
        header_view(header) == auth_header_of(*auth),
{
    match auth {
        ChromaAuthMethod::NoAuth => None,
        ChromaAuthMethod::BasicAuth { username, password } => {
            let mut credentials = username.clone();
            push_str(&mut credentials, ":");
            push_str(&mut credentials, password.as_str());
            let encoded = base64_encode(credentials.as_str());
            Some(basic_header(encoded.as_str()))
        },
        ChromaAuthMethod::TokenAuth { token, header } => Some(token_header(token.as_str(), header)),
    }
}

} // verus!
