use vstd::prelude::*;

verus! {

/// Errors of the connector.
#[derive(Debug, PartialEq, Eq, Clone, Copy, Structural)]
pub enum ConnectorError {
    /// The construction config block is absent.
    MissingConfiguration,
    /// The construction config bounds requests in flight to zero.
    InvalidConfiguration,
    /// The outbound request could not be built from the event.
    RequestBuild,
    /// A configured codec, preprocessor or postprocessor name is unknown.
    UnknownProcessor,
    /// The external credential provider could not produce a token.
    Credentials,
    /// The delivery channel is closed.
    ChannelClosed,
    /// Data is not valid base64.
    Base64Decode,
    /// A map key did not serialize to a string.
    KeyMustBeAString,
}

} // verus!
