use jwt_auth::codec::ApiJwt;
use jwt_auth::codec::JwtDecoder;
use jwt_auth::errors::CustomErr;
use jwt_auth::headers::HeaderField;
use jwt_auth::headers::RequestHeaders;

fn headers_with(name: &str, value: &[u8]) -> RequestHeaders {
    RequestHeaders {
        fields: vec![HeaderField { name: name.as_bytes().to_vec(), value: value.to_vec() }],
    }
}

#[test]
fn bearer_token_is_extracted() {
    let headers = headers_with("Authorization", b"Bearer abc.def.ghi");
    assert_eq!(ApiJwt::parse_header(&headers).unwrap(), "abc.def.ghi");
}

#[test]
fn basic_scheme_is_rejected() {
    let headers = headers_with("Authorization", b"Basic xyz");
    assert!(matches!(ApiJwt::parse_header(&headers), Err(CustomErr::InvalidSchemaType)));
}

#[test]
fn missing_header_is_rejected() {
    let headers = RequestHeaders { fields: Vec::new() };
    assert!(matches!(ApiJwt::parse_header(&headers), Err(CustomErr::NoAuthorizationHeader)));
}

#[test]
fn bearer_without_token_is_rejected() {
    let headers = headers_with("Authorization", b"Bearer");
    assert!(matches!(ApiJwt::parse_header(&headers), Err(CustomErr::NoJwtTokenFound)));
}

#[test]
fn bearer_with_trailing_spaces_only_is_rejected() {
    let headers = headers_with("Authorization", b"Bearer   ");
    assert!(matches!(ApiJwt::parse_header(&headers), Err(CustomErr::NoJwtTokenFound)));
}

#[test]
fn empty_value_is_rejected_as_wrong_scheme() {
    let headers = headers_with("Authorization", b"");
    assert!(matches!(ApiJwt::parse_header(&headers), Err(CustomErr::InvalidSchemaType)));
}

#[test]
fn non_text_value_is_rejected() {
    let headers = headers_with("Authorization", &[0x42, 0xff, 0xfe]);
    assert!(matches!(ApiJwt::parse_header(&headers), Err(CustomErr::InvalidHeader)));
}

#[test]
fn header_name_lookup_ignores_case() {
    let headers = headers_with("AUTHORIZATION", b"Bearer tok");
    assert_eq!(ApiJwt::parse_header(&headers).unwrap(), "tok");
}

#[test]
fn words_after_the_token_are_ignored() {
    let headers = headers_with("authorization", b"Bearer tok1 tok2 tok3");
    assert_eq!(ApiJwt::parse_header(&headers).unwrap(), "tok1");
}

#[test]
fn leading_whitespace_is_skipped() {
    let headers = headers_with("Authorization", b"  \t Bearer \t tok");
    assert_eq!(ApiJwt::parse_header(&headers).unwrap(), "tok");
}

#[test]
fn first_authorization_header_wins() {
    let headers = RequestHeaders {
        fields: vec![
            HeaderField { name: b"Accept".to_vec(), value: b"*/*".to_vec() },
            HeaderField { name: b"Authorization".to_vec(), value: b"Bearer first".to_vec() },
            HeaderField { name: b"authorization".to_vec(), value: b"Bearer second".to_vec() },
        ],
    };
    assert_eq!(ApiJwt::parse_header(&headers).unwrap(), "first");
}

#[test]
fn bearer_is_case_sensitive() {
    let headers = headers_with("Authorization", b"bearer tok");
    assert!(matches!(ApiJwt::parse_header(&headers), Err(CustomErr::InvalidSchemaType)));
}

#[test]
fn trait_path_reaches_the_parser() {
    let headers = headers_with("Authorization", b"Bearer via.trait");
    let parsed = <ApiJwt as JwtDecoder<jwt_auth::claims::ApiClaims>>::parse_header(&headers);
    assert_eq!(parsed.unwrap(), "via.trait");
}

#[test]
fn non_ascii_text_value_still_parses() {
    let headers = headers_with("Authorization", "Bearer t\u{00e9}moin".as_bytes());
    assert_eq!(ApiJwt::parse_header(&headers).unwrap(), "t\u{00e9}moin");
}
