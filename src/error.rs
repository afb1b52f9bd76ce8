//! ClientError conditions.
use vstd::prelude::*;

verus! {

#[verifier::external_type_specification]
#[verifier::external_body]
pub struct ExRumaApiError(ruma_api::Error);

#[verifier::external_type_specification]
#[verifier::external_body]
pub struct ExSerdeJsonError(serde_json::Error);

#[verifier::external_type_specification]
#[verifier::external_body]
pub struct ExUrlEncodedError(serde_urlencoded::ser::Error);

/// An error that can occur during client operations.
#[derive(Debug)]
pub struct ClientError(pub InnerError);

/// The kinds of failure, without the detail that some of them carry.
#[derive(Debug, Clone, Copy, PartialEq, Eq, Structural)]
pub enum ErrorKind {
    /// An endpoint that requires authentication was called without a session.
    AuthenticationRequired,
    /// The transport failed to deliver the request or its response.
    HttpRequester,
    /// The request target could not be built or parsed as a URI.
    Uri,
    /// Converting between endpoint values and their wire form failed.
    RumaApi,
    /// A JSON value could not be serialized or deserialized.
    SerdeJson,
    /// A value could not be serialized into a query string.
    SerdeUrlEncodedSerialize,
}

/// Internal representation of errors.
#[derive(Debug)]
pub enum InnerError {
    /// Queried endpoint requires authentication but was called on an anonymous client.
    AuthenticationRequired,
    /// An error at the HTTP layer.
    HttpRequester,
    /// An error when parsing a string as a URI.
    Uri(http::uri::InvalidUri),
    /// The homeserver URL could not be read as a URL.
    InvalidHomeserverUrl,
    /// An error converting between endpoint types and HTTP types.
    RumaApi(ruma_api::Error),
    /// An error when serializing or deserializing a JSON value.
    SerdeJson(serde_json::Error),
    /// An error when serializing a query string value.
    SerdeUrlEncodedSerialize(serde_urlencoded::ser::Error),
}

impl ClientError {
    /// The kind of this error.
    pub open spec fn view(&self) -> ErrorKind {
        match self.0 {
            InnerError::AuthenticationRequired => ErrorKind::AuthenticationRequired,
            InnerError::HttpRequester => ErrorKind::HttpRequester,
            InnerError::Uri(_) | InnerError::InvalidHomeserverUrl => ErrorKind::Uri,
            InnerError::RumaApi(_) => ErrorKind::RumaApi,
            InnerError::SerdeJson(_) => ErrorKind::SerdeJson,
            InnerError::SerdeUrlEncodedSerialize(_) => ErrorKind::SerdeUrlEncodedSerialize,
        }
    }

    /// The kind of this error.
    pub fn kind(&self) -> (r: ErrorKind)
        ensures
            r == self@,
    {
        match &self.0 {
            InnerError::AuthenticationRequired => ErrorKind::AuthenticationRequired,
            InnerError::HttpRequester => ErrorKind::HttpRequester,
            InnerError::Uri(_) | InnerError::InvalidHomeserverUrl => ErrorKind::Uri,
            InnerError::RumaApi(_) => ErrorKind::RumaApi,
            InnerError::SerdeJson(_) => ErrorKind::SerdeJson,
            InnerError::SerdeUrlEncodedSerialize(_) => ErrorKind::SerdeUrlEncodedSerialize,
        }
    }

    /// A human-readable description of this error.
    pub fn message(&self) -> (r: &'static str)
        ensures
            r@ == message_of(self@),
    {
        match &self.0 {
            InnerError::AuthenticationRequired => "The queried endpoint requires authentication but was called with an anonymous client.",
            InnerError::HttpRequester => "An HTTP error occurred.",
            InnerError::Uri(_) | InnerError::InvalidHomeserverUrl => "Provided string could not be converted into a URI.",
            InnerError::RumaApi(_) => "An error occurred converting between ruma_client_api and hyper types.",
            InnerError::SerdeJson(_) => "A serialization error occurred.",
            InnerError::SerdeUrlEncodedSerialize(_) => "An error occurred serializing data to a query string.",
        }
    }
}

/// The description given for each kind of error.
pub open spec fn message_of(k: ErrorKind) -> Seq<char> {
    match k {
        ErrorKind::AuthenticationRequired => "The queried endpoint requires authentication but was called with an anonymous client."@,
        ErrorKind::HttpRequester => "An HTTP error occurred."@,
        ErrorKind::Uri => "Provided string could not be converted into a URI."@,
        ErrorKind::RumaApi => "An error occurred converting between ruma_client_api and hyper types."@,
        ErrorKind::SerdeJson => "A serialization error occurred."@,
        ErrorKind::SerdeUrlEncodedSerialize => "An error occurred serializing data to a query string."@,
    }
}

/// An error that can occur in the transport.
#[derive(Debug, Clone, Copy)]
pub struct HttpRequesterError;

impl HttpRequesterError {
    /// A human-readable description of this error.
    pub fn message(&self) -> (r: &'static str)
        ensures
            r@ == "HttpRequesterError"@,
    {
        "HttpRequesterError"
    }
}

impl From<HttpRequesterError> for ClientError {
    fn from(_error: HttpRequesterError) -> (r: Self) {
        ClientError(InnerError::HttpRequester)
    }
}

impl vstd::std_specs::convert::FromSpecImpl<HttpRequesterError> for ClientError {
    open spec fn obeys_from_spec() -> bool {
        true
    }

    open spec fn from_spec(v: HttpRequesterError) -> Self {
        ClientError(InnerError::HttpRequester)
    }
}

impl From<http::uri::InvalidUri> for ClientError {
    fn from(error: http::uri::InvalidUri) -> (r: Self) {
        ClientError(InnerError::Uri(error))
    }
}

impl vstd::std_specs::convert::FromSpecImpl<http::uri::InvalidUri> for ClientError {
    open spec fn obeys_from_spec() -> bool {
        true
    }

    open spec fn from_spec(v: http::uri::InvalidUri) -> Self {
        ClientError(InnerError::Uri(v))
    }
}

impl From<ruma_api::Error> for ClientError {
    fn from(error: ruma_api::Error) -> (r: Self) {
        ClientError(InnerError::RumaApi(error))
    }
}

impl vstd::std_specs::convert::FromSpecImpl<ruma_api::Error> for ClientError {
    open spec fn obeys_from_spec() -> bool {
        true
    }

    open spec fn from_spec(v: ruma_api::Error) -> Self {
        ClientError(InnerError::RumaApi(v))
    }
}

impl From<serde_json::Error> for ClientError {
    fn from(error: serde_json::Error) -> (r: Self) {
        ClientError(InnerError::SerdeJson(error))
    }
}

impl vstd::std_specs::convert::FromSpecImpl<serde_json::Error> for ClientError {
    open spec fn obeys_from_spec() -> bool {
        true
    }

    open spec fn from_spec(v: serde_json::Error) -> Self {
        ClientError(InnerError::SerdeJson(v))
    }
}

impl From<serde_urlencoded::ser::Error> for ClientError {
    fn from(error: serde_urlencoded::ser::Error) -> (r: Self) {
        ClientError(InnerError::SerdeUrlEncodedSerialize(error))
    }
}

impl vstd::std_specs::convert::FromSpecImpl<serde_urlencoded::ser::Error> for ClientError {
    open spec fn obeys_from_spec() -> bool {
        true
    }

    open spec fn from_spec(v: serde_urlencoded::ser::Error) -> Self {
        ClientError(InnerError::SerdeUrlEncodedSerialize(v))
    }
}

} // verus!
