use http_dispatch::connector::{ClientConfig, ConnectorConfig, HttpClient};
use http_dispatch::error::ConnectorError;

fn config(codec: Option<&str>, client: Option<ClientConfig>) -> ConnectorConfig {
    ConnectorConfig {
        codec: codec.map(|c| c.to_string()),
        config: client,
        preprocessors: Some(vec!["lines".to_string()]),
        postprocessors: None,
    }
}

#[test]
fn missing_config_is_refused() {
    assert_eq!(
        HttpClient::from_config(config(None, None)).unwrap_err(),
        ConnectorError::MissingConfiguration
    );
}

#[test]
fn zero_concurrency_is_refused() {
    assert_eq!(
        HttpClient::from_config(config(None, Some(ClientConfig::with_concurrency(0)))).unwrap_err(),
        ConnectorError::InvalidConfiguration
    );
}

#[test]
fn codec_defaults_to_json() {
    let c = HttpClient::from_config(config(None, Some(ClientConfig::with_concurrency(4)))).unwrap();
    assert_eq!(c.codec_requirements(), "json");
    assert_eq!(c.max_concurrency(), 4);
    assert_eq!(c.pool_size(), 4);
    let c = HttpClient::from_config(config(Some("msgpack"), Some(ClientConfig::with_concurrency(2))))
        .unwrap();
    assert_eq!(c.codec_requirements(), "msgpack");
}

#[test]
fn client_config_defaults() {
    let c = ClientConfig::with_concurrency(1);
    assert_eq!(c.url, "https://localhost:443/");
    assert_eq!(c.method, "POST");
    assert!(c.headers.is_empty());
}

#[test]
fn new_sink_starts_with_an_empty_pool() {
    let c = HttpClient::from_config(config(None, Some(ClientConfig::with_concurrency(2)))).unwrap();
    let mut sink = c.create_sink::<u8>();
    assert!(matches!(
        sink.on_event(None),
        http_dispatch::dispatch::Dispatch::NoClient { signal: None }
    ));
    let _source = c.create_source();
}

#[test]
fn http_client_builder() {
    let mut client = ClientConfig::with_concurrency(4);
    client.url = "https://www.google.com".to_string();
    let with_processors = ConnectorConfig {
        codec: None,
        config: Some(client),
        preprocessors: Some(vec!["lines".to_string()]),
        postprocessors: Some(vec!["lines".to_string()]),
    };
    let connector = HttpClient::from_config(with_processors);
    assert!(connector.is_ok());
}

#[test]
fn smallest_bound_still_gets_a_client() {
    let c = HttpClient::from_config(config(None, Some(ClientConfig::with_concurrency(1)))).unwrap();
    assert_eq!(c.pool_size(), 1);
}
