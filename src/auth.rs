use crate::error::ConnectorError;
use vstd::prelude::*;
use vstd::string::StringExecFns;

verus! {

/// The standard, padded base64 encoding of the UTF-8 bytes of `s`.
pub uninterp spec fn base64_of(s: Seq<char>) -> Seq<char>;

/// Relies on `base64::encode` (standard alphabet, with padding): its result
/// depends on the bytes of `s` alone.
#[verifier::external_body]
fn encode_base64(s: &str) -> (r: String)
    ensures
        r@ == base64_of(s@),
{
    base64::encode(s)
}

/// `gouth::Token`, carried opaquely.
#[verifier::external_type_specification]
#[verifier::external_body]
pub struct ExGouthToken(gouth::Token);

/// `gouth::Error`, carried opaquely and mapped to `ConnectorError::Credentials`.
#[verifier::external_type_specification]
#[verifier::external_body]
pub struct ExGouthError(gouth::Error);

/// Relies on `gouth::Token::new`: looks up the default GCP credentials.
/// Whether it succeeds depends on the environment, so nothing is promised.
#[verifier::external_body]
fn gcp_token() -> (r: Result<gouth::Token, gouth::Error>) {
    gouth::Token::new()
}

/// Relies on `gouth::Token::header_value`: the current authorization header
/// value of the token, renewed when expired. Nothing is promised of it.
#[verifier::external_body]
fn gcp_header_value(t: &gouth::Token) -> (r: Result<String, gouth::Error>) {
    match t.header_value() {
        Ok(h) => Ok(h.as_ref().clone()),
        Err(e) => Err(e),
    }
}

/// The basic authorization header for the encoded credentials.
pub fn basic_header(encoded: &str) -> (r: String)
    ensures
        r@ == "Basic "@ + encoded@,
{
    let mut header = String::from_str("Basic ");
    header.append(encoded);
    header
}

/// The API key authorization header for the separately encoded id, colon and
/// key, in that order.
pub fn api_key_header(id: &str, colon: &str, key: &str) -> (r: String)
    ensures
        r@ == "ApiKey "@ + id@ + colon@ + key@,
{
    let mut header = String::from_str("ApiKey ");
    header.append(id);
    header.append(colon);
    header.append(key);
    header
}

/// Authorization strategies.
#[derive(Debug, PartialEq, Eq, Clone)]
pub enum Auth {
    /// Basic credentials.
    Basic { username: String, password: String },
    /// A bearer token, sent verbatim.
    Bearer(String),
    /// An API key pair.
    ElasticsearchApiKey { id: String, api_key: String },
    /// A token issued by the GCP credential provider at call time.
    Gcp,
    /// No authorization header.
    NoAuth,
}

pub open spec fn str_view_opt(o: Option<String>) -> Option<Seq<char>> {
    match o {
        Some(s) => Some(s@),
        None => None,
    }
}

impl Auth {
    /// The header value of every strategy but the externally issued token.
    pub open spec fn spec_header(&self) -> Option<Seq<char>> {
        match self {
            Auth::Basic { username, password } => Some(
                "Basic "@ + base64_of(username@ + ":"@ + password@),
            ),
            Auth::Bearer(token) => Some("Bearer "@ + token@),
            Auth::ElasticsearchApiKey { id, api_key } => Some(
                "ApiKey "@ + base64_of(id@) + base64_of(":"@) + base64_of(api_key@),
            ),
            Auth::Gcp => None,
            Auth::NoAuth => None,
        }
    }

    /// The authorization header value, given what the credential provider
    /// gave for the externally issued token (consulted for `Gcp` only).
    pub fn header_value_given(&self, provided: Result<String, ConnectorError>) -> (r: Result<
        Option<String>,
        ConnectorError,
    >)
        ensures
            !(self is Gcp) ==> r is Ok && str_view_opt(r->Ok_0) == self.spec_header(),
            self is Gcp ==> match provided {
                Ok(h) => r is Ok && str_view_opt(r->Ok_0) == Some(h@),
                Err(e) => r == Err::<Option<String>, ConnectorError>(e),
            },
    {
        match self {
            Auth::Gcp => match provided {
                Ok(h) => Ok(Some(h)),
                Err(e) => Err(e),
            },
            Auth::Basic { username, password } => {
                let mut joined = username.clone();
                joined.append(":");
                joined.append(password.as_str());
                let encoded = encode_base64(joined.as_str());
                let header = basic_header(encoded.as_str());
                proof {
                    assert(joined@ == username@ + ":"@ + password@);
                }
                Ok(Some(header))
            },
            Auth::Bearer(token) => {
                let mut header = String::from_str("Bearer ");
                header.append(token.as_str());
                Ok(Some(header))
            },
            Auth::ElasticsearchApiKey { id, api_key } => {
                let a = encode_base64(id.as_str());
                let b = encode_base64(":");
                let c = encode_base64(api_key.as_str());
                Ok(Some(api_key_header(a.as_str(), b.as_str(), c.as_str())))
            },
            Auth::NoAuth => Ok(None),
        }
    }

    /// Prepares the authorization header value of the strategy. Only the
    /// externally issued token asks a credential provider, and only it can
    /// fail.
    pub fn as_header_value(&self) -> (r: Result<Option<String>, ConnectorError>)
        ensures
            !(self is Gcp) ==> r is Ok && str_view_opt(r->Ok_0) == self.spec_header(),
            self is Gcp ==> r is Err ==> r == Err::<Option<String>, ConnectorError>(ConnectorError::Credentials),
            self is Gcp ==> r is Ok ==> r->Ok_0 is Some,
    {
        if let Auth::Gcp = self {
            let provided = match gcp_token() {
                Ok(t) => match gcp_header_value(&t) {
                    Ok(h) => Ok(h),
                    Err(_) => Err(ConnectorError::Credentials),
                },
                Err(_) => Err(ConnectorError::Credentials),
            };
            self.header_value_given(provided)
        } else {
            self.header_value_given(Err(ConnectorError::Credentials))
        }
    }
}

impl Default for Auth {
    fn default() -> (r: Self)
        ensures
            r == Auth::NoAuth,
    {
        Auth::NoAuth
    }
}

} // verus!
