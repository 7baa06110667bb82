use http_dispatch::auth::{api_key_header, basic_header, Auth};
use http_dispatch::error::ConnectorError;

#[test]
fn basic_auth_header() {
    let auth = Auth::Basic {
        username: "alice".to_string(),
        password: "secret".to_string(),
    };
    assert_eq!(
        auth.as_header_value(),
        Ok(Some("Basic YWxpY2U6c2VjcmV0".to_string()))
    );
}

#[test]
fn api_key_header_encodes_each_part() {
    let auth = Auth::ElasticsearchApiKey {
        id: "abc".to_string(),
        api_key: "xyz".to_string(),
    };
    let header = auth.as_header_value().unwrap().unwrap();
    assert_eq!(header, "ApiKey YWJjOg==eHl6");
    assert_ne!(header, "ApiKey YWJjOnh5eg==");
}

#[test]
fn bearer_header_is_verbatim() {
    let auth = Auth::Bearer("tok3n".to_string());
    assert_eq!(auth.as_header_value(), Ok(Some("Bearer tok3n".to_string())));
}

#[test]
fn no_auth_gives_no_header() {
    assert_eq!(Auth::NoAuth.as_header_value(), Ok(None));
    assert_eq!(Auth::default(), Auth::NoAuth);
}

#[test]
fn external_token_uses_what_the_provider_gave() {
    let given = Auth::Gcp.header_value_given(Ok("Bearer ya29".to_string()));
    assert_eq!(given, Ok(Some("Bearer ya29".to_string())));
    let failed = Auth::Gcp.header_value_given(Err(ConnectorError::Credentials));
    assert_eq!(failed, Err(ConnectorError::Credentials));
}

#[test]
fn provider_result_is_ignored_by_other_strategies() {
    let auth = Auth::Bearer("t".to_string());
    assert_eq!(
        auth.header_value_given(Err(ConnectorError::Credentials)),
        Ok(Some("Bearer t".to_string()))
    );
}

#[test]
fn header_builders_join_encoded_parts() {
    assert_eq!(basic_header("YWxpY2U6c2VjcmV0"), "Basic YWxpY2U6c2VjcmV0");
    assert_eq!(api_key_header("YWJj", "Og==", "eHl6"), "ApiKey YWJjOg==eHl6");
}
