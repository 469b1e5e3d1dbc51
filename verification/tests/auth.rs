use chroma_api::auth::{
    auth_header, basic_header, token_header, ChromaAuthMethod, ChromaTokenHeader,
};
use chroma_api::request::request_headers;

#[test]
fn basic_auth_sends_encoded_credentials() {
    let auth = ChromaAuthMethod::BasicAuth {
        username: "alice".to_string(),
        password: "secret".to_string(),
    };
    let headers = request_headers(&auth, false);
    assert_eq!(headers.len(), 1);
    assert_eq!(headers[0].name, "Authorization");
    assert_eq!(headers[0].value, "Basic YWxpY2U6c2VjcmV0");
}

#[test]
fn basic_auth_pads_the_encoding() {
    let auth = ChromaAuthMethod::BasicAuth {
        username: "a".to_string(),
        password: "".to_string(),
    };
    let header = auth_header(&auth).unwrap();
    assert_eq!(header.name, "Authorization");
    assert_eq!(header.value, "Basic YTo=");
}

#[test]
fn chroma_token_sends_its_own_header_only() {
    let auth = ChromaAuthMethod::TokenAuth {
        token: "tok123".to_string(),
        header: ChromaTokenHeader::XChromaToken,
    };
    let headers = request_headers(&auth, false);
    assert_eq!(headers.len(), 1);
    assert_eq!(headers[0].name, "X-Chroma-Token");
    assert_eq!(headers[0].value, "tok123");
    assert!(headers.iter().all(|h| h.name != "Authorization"));
}

#[test]
fn bearer_token_uses_authorization() {
    let auth = ChromaAuthMethod::TokenAuth {
        token: "tok123".to_string(),
        header: ChromaTokenHeader::Authorization,
    };
    let header = auth_header(&auth).unwrap();
    assert_eq!(header.name, "Authorization");
    assert_eq!(header.value, "Bearer tok123");
}

#[test]
fn no_auth_adds_no_header() {
    assert!(auth_header(&ChromaAuthMethod::NoAuth).is_none());
    assert!(request_headers(&ChromaAuthMethod::NoAuth, false).is_empty());
}

#[test]
fn default_method_is_no_auth() {
    assert!(matches!(ChromaAuthMethod::default(), ChromaAuthMethod::NoAuth));
}

#[test]
fn basic_header_prefixes_the_encoding() {
    let header = basic_header("QUJD");
    assert_eq!(header.name, "Authorization");
    assert_eq!(header.value, "Basic QUJD");
}

#[test]
fn token_header_by_kind() {
    let bearer = token_header("t", &ChromaTokenHeader::Authorization);
    assert_eq!((bearer.name.as_str(), bearer.value.as_str()), ("Authorization", "Bearer t"));
    let custom = token_header("t", &ChromaTokenHeader::XChromaToken);
    assert_eq!((custom.name.as_str(), custom.value.as_str()), ("X-Chroma-Token", "t"));
}

#[test]
fn json_body_adds_content_type_after_auth() {
    let auth = ChromaAuthMethod::TokenAuth {
        token: "tok123".to_string(),
        header: ChromaTokenHeader::Authorization,
    };
    let headers = request_headers(&auth, true);
    assert_eq!(headers.len(), 2);
    assert_eq!(headers[0].name, "Authorization");
    assert_eq!(headers[1].name, "Content-Type");
    assert_eq!(headers[1].value, "application/json");
    let bare = request_headers(&ChromaAuthMethod::NoAuth, true);
    assert_eq!(bare.len(), 1);
    assert_eq!(bare[0].name, "Content-Type");
}
