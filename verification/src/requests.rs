//! Structured model of the requests and responses that cross the IPC
//! boundary.
//!
//! Wire framing and the serialization format are owned by the transport
//! collaborator; this module models the parts of a request that the front
//! end reads (the header and the raw body and authentication bytes) and the
//! responses it builds.

use vstd::prelude::*;

verus! {

/// Authentication type declared in a request header.
#[derive(Copy, Clone, Debug, PartialEq, Eq, Hash, Structural)]
pub enum AuthType {
    /// The request carries no authentication; it is dispatched anonymously.
    NoAuth,
    /// The authentication field directly holds the application name.
    Direct,
    /// The identity is taken from the peer credentials of the connection.
    UnixPeerCredentials,
    /// The authentication field holds a signed identity token.
    Jwt,
}

/// Identifier of the cryptographic backend that owns a key.
#[derive(Copy, Clone, Debug, PartialEq, Eq, Hash, Structural)]
pub enum ProviderID {
    /// The service-management pseudo provider.
    Core,
    /// A software cryptography backend.
    MbedCrypto,
    /// A PKCS#11 hardware token backend.
    Pkcs11,
    /// A Trusted Platform Module backend.
    Tpm,
}

/// Status carried by a response; `Success` or the failure that ended the
/// request.
#[derive(Copy, Clone, Debug, PartialEq, Eq, Hash, Structural)]
pub enum ResponseStatus {
    /// The request was executed.
    Success,
    /// The request header could not be parsed.
    InvalidHeader,
    /// The request body could not be deserialized.
    DeserializingBodyFailed,
    /// The request body is larger than the configured limit.
    BodySizeExceedsLimit,
    /// A registered authenticator rejected the caller's credentials.
    AuthenticationError,
    /// No authenticator is registered for the declared authentication type.
    AuthenticatorNotRegistered,
    /// The key identity mapping backend failed.
    KeyIDManagerError,
}

impl ProviderID {
    /// Value of [`ProviderID::name`].
    pub open spec fn name_spec(self) -> Seq<char> {
        match self {
            ProviderID::Core => "Core"@,
            ProviderID::MbedCrypto => "MbedCrypto"@,
            ProviderID::Pkcs11 => "Pkcs11"@,
            ProviderID::Tpm => "Tpm"@,
        }
    }

    /// Short name of the provider, for rendering.
    pub fn name(&self) -> (r: &'static str)
        ensures
            r@ == self.name_spec(),
    {
        match self {
            ProviderID::Core => "Core",
            ProviderID::MbedCrypto => "MbedCrypto",
            ProviderID::Pkcs11 => "Pkcs11",
            ProviderID::Tpm => "Tpm",
        }
    }
}

/// Fixed-size part of a request, available even when the body is rejected.
#[derive(Copy, Clone, Debug, PartialEq, Eq, Structural)]
pub struct RequestHeader {
    /// Backend the request is aimed at.
    pub provider: ProviderID,
    /// Caller-chosen session identifier, echoed in the response.
    pub session: u64,
    /// Code of the operation requested; opaque to the front end.
    pub opcode: u32,
    /// How the caller claims to be authenticated.
    pub auth_type: AuthType,
}

/// A deserialized request: its header plus the raw body and authentication
/// bytes, which only the dispatcher and the authenticators interpret.
#[derive(Debug)]
pub struct Request {
    /// Header of the request.
    pub header: RequestHeader,
    /// Serialized operation parameters; opaque to the front end.
    pub body: Vec<u8>,
    /// Caller-supplied authentication payload.
    pub auth: Vec<u8>,
}

/// Mathematical value of a [`Request`].
pub struct RequestView {
    /// Header of the request.
    pub header: RequestHeader,
    /// Bytes of the body.
    pub body: Seq<u8>,
    /// Bytes of the authentication payload.
    pub auth: Seq<u8>,
}

impl View for Request {
    type V = RequestView;

    open spec fn view(&self) -> RequestView {
        RequestView { header: self.header, body: self.body@, auth: self.auth@ }
    }
}

/// Fixed-size part of a response.
#[derive(Copy, Clone, Debug, PartialEq, Eq, Structural)]
pub struct ResponseHeader {
    /// Backend that produced the response.
    pub provider: ProviderID,
    /// Session identifier echoed from the request.
    pub session: u64,
    /// Operation code echoed from the request.
    pub opcode: u32,
    /// Outcome of the request.
    pub status: ResponseStatus,
}

/// A response ready to be serialized: its header plus the raw result bytes.
#[derive(Debug)]
pub struct Response {
    /// Header of the response.
    pub header: ResponseHeader,
    /// Serialized operation result; empty for failure responses.
    pub body: Vec<u8>,
}

/// Mathematical value of a [`Response`].
pub struct ResponseView {
    /// Header of the response.
    pub header: ResponseHeader,
    /// Bytes of the body.
    pub body: Seq<u8>,
}

impl View for Response {
    type V = ResponseView;

    open spec fn view(&self) -> ResponseView {
        ResponseView { header: self.header, body: self.body@ }
    }
}

impl Response {
    /// Value of a response built from a failure status alone, when no
    /// request header was successfully read.
    pub open spec fn from_status_spec(status: ResponseStatus) -> ResponseView {
        ResponseView {
            header: ResponseHeader {
                provider: ProviderID::Core,
                session: 0,
                opcode: 0,
                status,
            },
            body: Seq::<u8>::empty(),
        }
    }

    /// Builds a status-only response: default header fields, the given
    /// status, and an empty body.
    pub fn from_status(status: ResponseStatus) -> (r: Response)
        ensures
            r@ == Response::from_status_spec(status),
    {
        Response {
            header: ResponseHeader { provider: ProviderID::Core, session: 0, opcode: 0, status },
            body: Vec::new(),
        }
    }

    /// Value of a response that echoes a request header and carries the
    /// given status.
    pub open spec fn from_request_header_spec(
        header: RequestHeader,
        status: ResponseStatus,
    ) -> ResponseView {
        ResponseView {
            header: ResponseHeader {
                provider: header.provider,
                session: header.session,
                opcode: header.opcode,
                status,
            },
            body: Seq::<u8>::empty(),
        }
    }

    /// Builds a response that echoes the provider, session and opcode of the
    /// request header and carries the given status, with an empty body.
    pub fn from_request_header(header: RequestHeader, status: ResponseStatus) -> (r: Response)
        ensures
            r@ == Response::from_request_header_spec(header, status),
    {
        Response {
            header: ResponseHeader {
                provider: header.provider,
                session: header.session,
                opcode: header.opcode,
                status,
            },
            body: Vec::new(),
        }
    }
}

} // verus!
