use crate::auth::Auth;
use crate::dispatch::{HttpRequestSink, HttpRequestSource};
use crate::error::ConnectorError;
use vstd::prelude::*;
use vstd::string::StringExecFns;

verus! {

/// The settings of the client itself.
#[derive(Debug)]
pub struct ClientConfig {
    pub url: String,
    pub method: String,
    pub headers: Vec<(String, Vec<String>)>,
    pub auth: Auth,
    /// The bound on requests in flight.
    pub concurrency: usize,
}

impl ClientConfig {
    /// The defaults: `POST` to `https://localhost:443/`, no headers, no
    /// authorization, the given bound on requests in flight.
    pub fn with_concurrency(concurrency: usize) -> (r: Self)
        ensures
            r.url@ == "https://localhost:443/"@,
            r.method@ == "POST"@,
            r.headers@.len() == 0,
            r.auth == Auth::NoAuth,
            r.concurrency == concurrency,
    {
        ClientConfig {
            url: String::from_str("https://localhost:443/"),
            method: String::from_str("POST"),
            headers: Vec::new(),
            auth: Auth::NoAuth,
            concurrency,
        }
    }
}

/// The configuration of a connector.
#[derive(Debug)]
pub struct ConnectorConfig {
    pub codec: Option<String>,
    pub config: Option<ClientConfig>,
    pub preprocessors: Option<Vec<String>>,
    pub postprocessors: Option<Vec<String>>,
}

/// The codec used when none is configured.
pub open spec fn codec_of(c: ConnectorConfig) -> Seq<char> {
    match c.codec {
        Some(n) => n@,
        None => "json"@,
    }
}

/// The HTTP client connector, for HTTP based API interactions.
#[derive(Debug)]
pub struct HttpClient {
    max_concurrency: usize,
    codec_name: String,
}

impl HttpClient {
    pub closed spec fn spec_max_concurrency(&self) -> usize {
        self.max_concurrency
    }

    pub closed spec fn spec_codec_name(&self) -> Seq<char> {
        self.codec_name@
    }

    pub closed spec fn wf(&self) -> bool {
        self.max_concurrency >= 1
    }

    /// Builds the connector. Fails when the client config block is absent,
    /// or when it bounds requests in flight to zero.
    pub fn from_config(connector_config: ConnectorConfig) -> (r: Result<HttpClient, ConnectorError>)
        ensures
            connector_config.config is None ==> r == Err::<HttpClient, ConnectorError>(
                ConnectorError::MissingConfiguration,
            ),
            connector_config.config is Some && connector_config.config->Some_0.concurrency == 0
                ==> r == Err::<HttpClient, ConnectorError>(ConnectorError::InvalidConfiguration),
            connector_config.config is Some && connector_config.config->Some_0.concurrency > 0
                ==> {
                &&& r is Ok
                &&& r->Ok_0.wf()
                &&& r->Ok_0.spec_max_concurrency() == connector_config.config->Some_0.concurrency
                &&& r->Ok_0.spec_codec_name() == codec_of(connector_config)
            },
    {
        let ConnectorConfig { codec, config, .. } = connector_config;
        let codec_name = match codec {
            Some(name) => name,
            None => String::from_str("json"),
        };
        match config {
            Some(c) => {
                if c.concurrency == 0 {
                    Err(ConnectorError::InvalidConfiguration)
                } else {
                    Ok(HttpClient { max_concurrency: c.concurrency, codec_name })
                }
            },
            None => Err(ConnectorError::MissingConfiguration),
        }
    }

    pub fn max_concurrency(&self) -> (r: usize)
        ensures
            r == self.spec_max_concurrency(),
    {
        self.max_concurrency
    }

    /// The codec the connector asks for.
    pub fn codec_requirements(&self) -> (r: &str)
        ensures
            r@ == self.spec_codec_name(),
    {
        self.codec_name.as_str()
    }

    /// How many clients each (re)connection puts in the transport pool: one
    /// for each request that may be in flight, so never none.
    pub fn pool_size(&self) -> (r: usize)
        requires
            self.wf(),
        ensures
            r == self.spec_max_concurrency(),
            r >= 1,
    {
        self.max_concurrency
    }

    pub fn create_source(&self) -> (r: HttpRequestSource) {
        HttpRequestSource::new()
    }

    pub fn create_sink<C: Clone>(&self) -> (r: HttpRequestSink<C>)
        requires
            self.wf(),
        ensures
            r.wf(),
            r.pool().clients().len() == 0,
            r.cap().max() == self.spec_max_concurrency(),
            r.cap().live() == 0,
            !r.cap().is_closed(),
    {
        HttpRequestSink::new(self.max_concurrency)
    }
}

} // verus!
