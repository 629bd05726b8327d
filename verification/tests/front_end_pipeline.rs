//! Behavior of the front-end pipeline and its builder, observed through
//! recording collaborators.

use std::cell::{Cell, RefCell};

use parsec_core::authenticators::{Authenticate, ApplicationName};
use parsec_core::front_end::{BuildError, Dispatch, FrontEndHandler, FrontEndHandlerBuilder};
use parsec_core::requests::{
    AuthType, ProviderID, Request, RequestHeader, Response, ResponseHeader, ResponseStatus,
};

/// Dispatcher double: counts invocations, remembers the identity it was
/// handed, and returns a recognizable response echoing the request header.
struct RecordingDispatcher {
    calls: Cell<usize>,
    last_app_name: RefCell<Option<Option<String>>>,
}

impl RecordingDispatcher {
    fn new() -> Self {
        RecordingDispatcher { calls: Cell::new(0), last_app_name: RefCell::new(None) }
    }
}

impl Dispatch for &RecordingDispatcher {
    fn dispatch_request(&self, request: Request, app_name: Option<ApplicationName>) -> Response {
        self.calls.set(self.calls.get() + 1);
        *self.last_app_name.borrow_mut() = Some(app_name.map(|a| a.name().clone()));
        Response {
            header: ResponseHeader {
                provider: request.header.provider,
                session: request.header.session,
                opcode: request.header.opcode,
                status: ResponseStatus::Success,
            },
            body: vec![0xAA, 0xBB],
        }
    }
}

/// Authenticator double: counts invocations and accepts or rejects.
struct RecordingAuthenticator {
    calls: Cell<usize>,
    accept_as: Option<&'static str>,
}

impl Authenticate for &RecordingAuthenticator {
    fn authenticate(&self, auth: &Vec<u8>) -> Result<ApplicationName, ResponseStatus> {
        self.calls.set(self.calls.get() + 1);
        let _ = auth;
        match self.accept_as {
            Some(name) => Ok(ApplicationName::new(name.to_string())),
            None => Err(ResponseStatus::AuthenticationError),
        }
    }
}

fn handler<'a>(
    dispatcher: &'a RecordingDispatcher,
    authenticators: &[(AuthType, &'a RecordingAuthenticator)],
    limit: usize,
) -> FrontEndHandler<&'a RecordingDispatcher, &'a RecordingAuthenticator> {
    let mut builder = FrontEndHandlerBuilder::new().with_dispatcher(dispatcher).with_body_len_limit(limit);
    for (auth_type, authenticator) in authenticators {
        builder = builder.with_authenticator(*auth_type, *authenticator);
    }
    builder.build().unwrap()
}

fn request(auth_type: AuthType, auth: Vec<u8>) -> Request {
    Request {
        header: RequestHeader {
            provider: ProviderID::MbedCrypto,
            session: 77,
            opcode: 4,
            auth_type,
        },
        body: vec![1, 2, 3],
        auth,
    }
}

#[test]
fn no_auth_request_is_dispatched_without_authenticator() {
    let dispatcher = RecordingDispatcher::new();
    let authenticator = RecordingAuthenticator { calls: Cell::new(0), accept_as: Some("app") };
    let front_end = handler(&dispatcher, &[(AuthType::Direct, &authenticator)], 1024);
    let response = front_end.handle_request(Ok(request(AuthType::NoAuth, vec![])));
    assert_eq!(dispatcher.calls.get(), 1);
    assert_eq!(authenticator.calls.get(), 0);
    assert_eq!(*dispatcher.last_app_name.borrow(), Some(None));
    // The dispatcher's response comes back unmodified.
    assert_eq!(response.header.status, ResponseStatus::Success);
    assert_eq!(response.header.session, 77);
    assert_eq!(response.header.opcode, 4);
    assert_eq!(response.header.provider, ProviderID::MbedCrypto);
    assert_eq!(response.body, vec![0xAA, 0xBB]);
}

#[test]
fn unregistered_auth_type_is_rejected_without_dispatch() {
    let dispatcher = RecordingDispatcher::new();
    let authenticator = RecordingAuthenticator { calls: Cell::new(0), accept_as: Some("app") };
    let front_end = handler(&dispatcher, &[(AuthType::Direct, &authenticator)], 1024);
    let response = front_end.handle_request(Ok(request(AuthType::Jwt, vec![9])));
    assert_eq!(dispatcher.calls.get(), 0);
    assert_eq!(authenticator.calls.get(), 0);
    assert_eq!(response.header.status, ResponseStatus::AuthenticatorNotRegistered);
    assert_eq!(response.header.session, 77);
    assert_eq!(response.header.opcode, 4);
    assert!(response.body.is_empty());
}

#[test]
fn rejected_credentials_echo_the_authenticator_status() {
    let dispatcher = RecordingDispatcher::new();
    let authenticator = RecordingAuthenticator { calls: Cell::new(0), accept_as: None };
    let front_end = handler(&dispatcher, &[(AuthType::Direct, &authenticator)], 1024);
    let response = front_end.handle_request(Ok(request(AuthType::Direct, vec![9])));
    assert_eq!(authenticator.calls.get(), 1);
    assert_eq!(dispatcher.calls.get(), 0);
    assert_eq!(response.header.status, ResponseStatus::AuthenticationError);
    assert_eq!(response.header.session, 77);
    assert!(response.body.is_empty());
}

#[test]
fn accepted_credentials_reach_the_dispatcher_with_the_identity() {
    let dispatcher = RecordingDispatcher::new();
    let authenticator = RecordingAuthenticator { calls: Cell::new(0), accept_as: Some("alice") };
    let front_end = handler(&dispatcher, &[(AuthType::Direct, &authenticator)], 1024);
    let response = front_end.handle_request(Ok(request(AuthType::Direct, vec![9])));
    assert_eq!(authenticator.calls.get(), 1);
    assert_eq!(dispatcher.calls.get(), 1);
    assert_eq!(*dispatcher.last_app_name.borrow(), Some(Some("alice".to_string())));
    assert_eq!(response.header.status, ResponseStatus::Success);
}

#[test]
fn oversized_body_is_rejected_at_the_read_step() {
    let dispatcher = RecordingDispatcher::new();
    let authenticator = RecordingAuthenticator { calls: Cell::new(0), accept_as: Some("app") };
    let front_end = handler(&dispatcher, &[(AuthType::Direct, &authenticator)], 128);
    assert_eq!(front_end.body_len_limit(), 128);
    assert!(front_end.accepts_body_len(128));
    assert!(!front_end.accepts_body_len(129));
    // The read step turns the refusal into a status the pipeline answers.
    let response = front_end.handle_request(Err(ResponseStatus::BodySizeExceedsLimit));
    assert_eq!(dispatcher.calls.get(), 0);
    assert_eq!(authenticator.calls.get(), 0);
    assert_eq!(response.header.status, ResponseStatus::BodySizeExceedsLimit);
    // Status-only response: no request header is available to echo.
    assert_eq!(response.header.session, 0);
    assert_eq!(response.header.opcode, 0);
    assert_eq!(response.header.provider, ProviderID::Core);
    assert!(response.body.is_empty());
}

#[test]
fn failed_read_yields_a_status_only_response() {
    let dispatcher = RecordingDispatcher::new();
    let authenticator = RecordingAuthenticator { calls: Cell::new(0), accept_as: Some("app") };
    let front_end = handler(&dispatcher, &[(AuthType::Direct, &authenticator)], 1024);
    let response = front_end.handle_request(Err(ResponseStatus::DeserializingBodyFailed));
    assert_eq!(dispatcher.calls.get(), 0);
    assert_eq!(response.header.status, ResponseStatus::DeserializingBodyFailed);
    assert_eq!(response.header.session, 0);
}

#[test]
fn build_fails_for_each_missing_field_independently() {
    let dispatcher = RecordingDispatcher::new();
    let authenticator = RecordingAuthenticator { calls: Cell::new(0), accept_as: Some("app") };

    let missing_dispatcher: FrontEndHandlerBuilder<&RecordingDispatcher, &RecordingAuthenticator> =
        FrontEndHandlerBuilder::new()
            .with_authenticator(AuthType::Direct, &authenticator)
            .with_body_len_limit(1024);
    assert!(matches!(missing_dispatcher.build(), Err(BuildError::MissingDispatcher)));

    let missing_authenticators: FrontEndHandlerBuilder<
        &RecordingDispatcher,
        &RecordingAuthenticator,
    > = FrontEndHandlerBuilder::new().with_dispatcher(&dispatcher).with_body_len_limit(1024);
    assert!(matches!(missing_authenticators.build(), Err(BuildError::MissingAuthenticators)));

    let missing_limit: FrontEndHandlerBuilder<&RecordingDispatcher, &RecordingAuthenticator> =
        FrontEndHandlerBuilder::new()
            .with_dispatcher(&dispatcher)
            .with_authenticator(AuthType::Direct, &authenticator);
    assert!(matches!(missing_limit.build(), Err(BuildError::MissingBodyLenLimit)));
}

#[test]
fn later_registration_replaces_the_earlier_one() {
    let dispatcher = RecordingDispatcher::new();
    let first = RecordingAuthenticator { calls: Cell::new(0), accept_as: None };
    let second = RecordingAuthenticator { calls: Cell::new(0), accept_as: Some("app") };
    let front_end = handler(
        &dispatcher,
        &[(AuthType::Direct, &first), (AuthType::Direct, &second)],
        1024,
    );
    let response = front_end.handle_request(Ok(request(AuthType::Direct, vec![9])));
    assert_eq!(first.calls.get(), 0);
    assert_eq!(second.calls.get(), 1);
    assert_eq!(dispatcher.calls.get(), 1);
    assert_eq!(response.header.status, ResponseStatus::Success);
}

#[test]
fn status_only_and_header_responses_are_built_exactly() {
    let status_only = Response::from_status(ResponseStatus::InvalidHeader);
    assert_eq!(status_only.header.provider, ProviderID::Core);
    assert_eq!(status_only.header.session, 0);
    assert_eq!(status_only.header.opcode, 0);
    assert_eq!(status_only.header.status, ResponseStatus::InvalidHeader);
    assert!(status_only.body.is_empty());

    let header = RequestHeader {
        provider: ProviderID::Tpm,
        session: 5,
        opcode: 11,
        auth_type: AuthType::Direct,
    };
    let echoed = Response::from_request_header(header, ResponseStatus::AuthenticationError);
    assert_eq!(echoed.header.provider, ProviderID::Tpm);
    assert_eq!(echoed.header.session, 5);
    assert_eq!(echoed.header.opcode, 11);
    assert_eq!(echoed.header.status, ResponseStatus::AuthenticationError);
    assert!(echoed.body.is_empty());
}
