//! Front-end request pipeline: authenticate the caller of a deserialized
//! request, hand it to the dispatcher, and build the response.
//!
//! The transport reads one request per connection and hands this module the
//! outcome of that read step; every path through the pipeline yields exactly
//! one response for the transport to write back. A failed read never reaches
//! an authenticator or the dispatcher; authentication is attempted at most
//! once per request.

use crate::authenticators::{ApplicationName, Authenticate};
use crate::requests::{AuthType, Request, RequestHeader, Response, ResponseStatus};
use vstd::prelude::*;

verus! {

/// Router from an authenticated request to a cryptographic provider and back
/// to a response.
///
/// The dispatcher is an external collaborator: it is infallible at this
/// boundary, every internal failure being already encoded into the status of
/// the response it returns.
pub trait Dispatch {
    /// Routes one request, together with the verified identity of the caller
    /// when the request was authenticated.
    fn dispatch_request(&self, request: Request, app_name: Option<ApplicationName>) -> Response;
}

/// One registered authenticator together with the authentication type it
/// serves.
pub struct RegistryEntry<A> {
    /// Authentication type the entry serves.
    pub auth_type: AuthType,
    /// The capability registered for that type.
    pub authenticator: A,
}

/// The authenticator that a registry holds for `auth_type`: the first entry
/// with that type, or `None` when no entry has it.
pub open spec fn lookup<A>(entries: Seq<RegistryEntry<A>>, auth_type: AuthType) -> Option<A>
    decreases entries.len(),
{
    if entries.len() == 0 {
        None
    } else if entries[0].auth_type == auth_type {
        Some(entries[0].authenticator)
    } else {
        lookup(entries.drop_first(), auth_type)
    }
}

/// A lookup passes over a prefix in which no entry has the wanted type.
proof fn lemma_lookup_skip<A>(entries: Seq<RegistryEntry<A>>, auth_type: AuthType, i: int)
    requires
        0 <= i <= entries.len(),
        forall|j: int| 0 <= j < i ==> entries[j].auth_type != auth_type,
    ensures
        lookup(entries, auth_type) == lookup(entries.skip(i), auth_type),
    decreases i,
{
    if i == 0 {
        assert(entries.skip(0) =~= entries);
    } else {
        assert(entries[0].auth_type != auth_type);
        lemma_lookup_skip(entries.drop_first(), auth_type, i - 1);
        assert(entries.drop_first().skip(i - 1) =~= entries.skip(i));
    }
}

/// Replacing the first entry of the wanted type changes the lookup of that
/// type and of no other.
proof fn lemma_lookup_update_at<A>(
    entries: Seq<RegistryEntry<A>>,
    i: int,
    entry: RegistryEntry<A>,
    t: AuthType,
)
    requires
        0 <= i < entries.len(),
        entries[i].auth_type == entry.auth_type,
        forall|j: int| 0 <= j < i ==> entries[j].auth_type != entry.auth_type,
    ensures
        lookup(entries.update(i, entry), t) == (if t == entry.auth_type {
            Some(entry.authenticator)
        } else {
            lookup(entries, t)
        }),
    decreases i,
{
    let updated = entries.update(i, entry);
    if i == 0 {
        assert(updated[0] == entry);
        if t != entry.auth_type {
            assert(updated.drop_first() =~= entries.drop_first());
        }
    } else {
        assert(updated[0] == entries[0]);
        if t != entries[0].auth_type {
            assert(updated.drop_first() =~= entries.drop_first().update(i - 1, entry));
            lemma_lookup_update_at(entries.drop_first(), i - 1, entry, t);
        }
    }
}

/// Forall form of [`lemma_lookup_update_at`].
proof fn lemma_lookup_update<A>(entries: Seq<RegistryEntry<A>>, i: int, entry: RegistryEntry<A>)
    requires
        0 <= i < entries.len(),
        entries[i].auth_type == entry.auth_type,
        forall|j: int| 0 <= j < i ==> entries[j].auth_type != entry.auth_type,
    ensures
        forall|t: AuthType| #[trigger] lookup(entries.update(i, entry), t) == (if t
            == entry.auth_type {
            Some(entry.authenticator)
        } else {
            lookup(entries, t)
        }),
{
    assert forall|t: AuthType| #[trigger] lookup(entries.update(i, entry), t) == (if t
        == entry.auth_type {
        Some(entry.authenticator)
    } else {
        lookup(entries, t)
    }) by {
        lemma_lookup_update_at(entries, i, entry, t);
    }
}

/// Appending an entry for a type that no entry has yet changes the lookup of
/// that type and of no other.
proof fn lemma_lookup_push_at<A>(
    entries: Seq<RegistryEntry<A>>,
    entry: RegistryEntry<A>,
    t: AuthType,
)
    requires
        forall|j: int| 0 <= j < entries.len() ==> entries[j].auth_type != entry.auth_type,
    ensures
        lookup(entries.push(entry), t) == (if t == entry.auth_type {
            Some(entry.authenticator)
        } else {
            lookup(entries, t)
        }),
    decreases entries.len(),
{
    let pushed = entries.push(entry);
    if entries.len() == 0 {
        assert(pushed[0] == entry);
        if t != entry.auth_type {
            assert(pushed.drop_first() =~= entries);
        }
    } else {
        assert(pushed[0] == entries[0]);
        if t != entries[0].auth_type {
            assert(pushed.drop_first() =~= entries.drop_first().push(entry));
            lemma_lookup_push_at(entries.drop_first(), entry, t);
        }
    }
}

/// Forall form of [`lemma_lookup_push_at`].
proof fn lemma_lookup_push<A>(entries: Seq<RegistryEntry<A>>, entry: RegistryEntry<A>)
    requires
        forall|j: int| 0 <= j < entries.len() ==> entries[j].auth_type != entry.auth_type,
    ensures
        forall|t: AuthType| #[trigger] lookup(entries.push(entry), t) == (if t
            == entry.auth_type {
            Some(entry.authenticator)
        } else {
            lookup(entries, t)
        }),
{
    assert forall|t: AuthType| #[trigger] lookup(entries.push(entry), t) == (if t
        == entry.auth_type {
        Some(entry.authenticator)
    } else {
        lookup(entries, t)
    }) by {
        lemma_lookup_push_at(entries, entry, t);
    }
}

/// What the pipeline does once a registered authenticator has spoken:
/// proceed to dispatch with the verified identity, or reply at once with the
/// failure status, echoing the request header.
pub enum AuthConclusion {
    /// Authentication succeeded; dispatch carrying this identity.
    Proceed(ApplicationName),
    /// Authentication failed; this response goes back without dispatching.
    Reply(Response),
}

/// Turns the outcome of an authenticator into the pipeline's next step: a
/// verified identity proceeds to dispatch, a failure status becomes a
/// response that echoes the request header and is never dispatched.
pub fn conclude_authentication(
    header: RequestHeader,
    outcome: Result<ApplicationName, ResponseStatus>,
) -> (r: AuthConclusion)
    ensures
        (outcome matches Ok(app_name) ==> r == AuthConclusion::Proceed(app_name)),
        (outcome matches Err(status) ==> r matches AuthConclusion::Reply(response)
            && response@ == Response::from_request_header_spec(header, status)),
{
    match outcome {
        Ok(app_name) => AuthConclusion::Proceed(app_name),
        Err(status) => AuthConclusion::Reply(Response::from_request_header(header, status)),
    }
}

/// Service component that owns the dispatcher and the authenticator
/// registry and executes the authenticate-dispatch pipeline for one
/// deserialized request at a time.
///
/// A handler is immutable after construction (through
/// [`FrontEndHandlerBuilder`]) and so can be shared read-only across the
/// worker threads of a transport.
pub struct FrontEndHandler<D, A> {
    dispatcher: D,
    authenticators: Vec<RegistryEntry<A>>,
    body_len_limit: usize,
}

impl<D, A> FrontEndHandler<D, A> {
    /// The authenticator registry, in registration order.
    pub closed spec fn registry(&self) -> Seq<RegistryEntry<A>> {
        self.authenticators@
    }

    /// The dispatcher the handler owns.
    pub closed spec fn dispatcher_spec(&self) -> D {
        self.dispatcher
    }

    /// The configured bound on the size of one request body.
    pub closed spec fn body_len_limit_spec(&self) -> usize {
        self.body_len_limit
    }

    /// Whether some authenticator is registered for `auth_type`.
    pub open spec fn has_authenticator(&self, auth_type: AuthType) -> bool {
        lookup(self.registry(), auth_type) is Some
    }

    /// The configured bound on the size of one request body; the read step
    /// must reject any body larger than this.
    pub fn body_len_limit(&self) -> (r: usize)
        ensures
            r == self.body_len_limit_spec(),
    {
        self.body_len_limit
    }

    /// Whether a body of `body_len` bytes is within the configured limit;
    /// the read step rejects the request with a size-related status when it
    /// is not.
    pub fn accepts_body_len(&self, body_len: usize) -> (r: bool)
        ensures
            r == (body_len <= self.body_len_limit_spec()),
    {
        body_len <= self.body_len_limit
    }

    /// The authenticator registered for `auth_type`, if any.
    #[verifier::loop_isolation(false)]
    pub fn find_authenticator(&self, auth_type: AuthType) -> (r: Option<&A>)
        ensures
            match r {
                Some(authenticator) => lookup(self.registry(), auth_type) == Some(*authenticator),
                None => !self.has_authenticator(auth_type),
            },
    {
        let mut i: usize = 0;
        while i < self.authenticators.len()
            invariant
                i <= self.authenticators.len(),
                forall|j: int| 0 <= j < i ==> self.authenticators@[j].auth_type != auth_type,
            decreases self.authenticators.len() - i,
        {
            if self.authenticators[i].auth_type == auth_type {
                proof {
                    lemma_lookup_skip(self.authenticators@, auth_type, i as int);
                }
                return Some(&self.authenticators[i].authenticator);
            }
            i = i + 1;
        }
        proof {
            lemma_lookup_skip(self.authenticators@, auth_type, i as int);
            assert(self.authenticators@.skip(i as int) =~= Seq::<RegistryEntry<A>>::empty());
        }
        None
    }
}

impl<D: Dispatch, A: Authenticate> FrontEndHandler<D, A> {
    /// Executes the pipeline on the outcome of the read step and returns the
    /// one response owed for it.
    ///
    /// A failed read yields a status-only response and consults neither an
    /// authenticator nor the dispatcher. A request of the no-authentication
    /// type is handed to the dispatcher unchanged, with no identity, and the
    /// dispatcher's response is returned as it came. Any other request goes
    /// to the authenticator registered for its type: the registry miss and
    /// the authenticator's failure status each yield a response echoing the
    /// request header without dispatching, and a verified identity is
    /// dispatched with the unchanged request, whose response is returned as
    /// it came.
    pub fn handle_request(&self, read_outcome: Result<Request, ResponseStatus>) -> (r: Response)
        ensures
            (read_outcome matches Err(status) ==> r@ == Response::from_status_spec(status)),
            (read_outcome matches Ok(request) ==> (request.header.auth_type != AuthType::NoAuth
                && !self.has_authenticator(request.header.auth_type) ==> r@
                == Response::from_request_header_spec(
                request.header,
                ResponseStatus::AuthenticatorNotRegistered,
            ))),
            (read_outcome matches Ok(request) ==> (request.header.auth_type == AuthType::NoAuth
                ==> call_ensures(
                <D as Dispatch>::dispatch_request,
                (&self.dispatcher_spec(), request, None::<ApplicationName>),
                r,
            ))),
            (read_outcome matches Ok(request) ==> (request.header.auth_type != AuthType::NoAuth
                ==> (lookup(self.registry(), request.header.auth_type) matches Some(authenticator)
                ==> exists|outcome: Result<ApplicationName, ResponseStatus>|
                    #[trigger] call_ensures(
                        <A as Authenticate>::authenticate,
                        (&authenticator, &request.auth),
                        outcome,
                    ) && (match outcome {
                        Ok(app_name) => call_ensures(
                            <D as Dispatch>::dispatch_request,
                            (&self.dispatcher_spec(), request, Some(app_name)),
                            r,
                        ),
                        Err(status) => r@ == Response::from_request_header_spec(
                            request.header,
                            status,
                        ),
                    })))),
    {
        let request = match read_outcome {
            Ok(request) => request,
            Err(status) => {
                return Response::from_status(status);
            },
        };
        if request.header.auth_type == AuthType::NoAuth {
            self.dispatcher.dispatch_request(request, None)
        } else {
            match self.find_authenticator(request.header.auth_type) {
                Some(authenticator) => {
                    let outcome = authenticator.authenticate(&request.auth);
                    match conclude_authentication(request.header, outcome) {
                        AuthConclusion::Proceed(app_name) => self.dispatcher.dispatch_request(
                            request,
                            Some(app_name),
                        ),
                        AuthConclusion::Reply(response) => response,
                    }
                },
                None => Response::from_request_header(
                    request.header,
                    ResponseStatus::AuthenticatorNotRegistered,
                ),
            }
        }
    }
}

/// Error returned by [`FrontEndHandlerBuilder::build`], naming the required
/// value that was never supplied.
#[derive(Copy, Clone, Debug, PartialEq, Eq, Structural)]
pub enum BuildError {
    /// No dispatcher was supplied.
    MissingDispatcher,
    /// No authenticator was registered.
    MissingAuthenticators,
    /// No body-size limit was supplied.
    MissingBodyLenLimit,
}

/// Accumulates the three required values of a [`FrontEndHandler`] —
/// dispatcher, authenticator registry, body-size limit — and validates at
/// build time that each was supplied.
pub struct FrontEndHandlerBuilder<D, A> {
    dispatcher: Option<D>,
    authenticators: Option<Vec<RegistryEntry<A>>>,
    body_len_limit: Option<usize>,
}

impl<D, A> FrontEndHandlerBuilder<D, A> {
    /// The dispatcher supplied so far.
    pub closed spec fn dispatcher_spec(&self) -> Option<D> {
        self.dispatcher
    }

    /// The registry accumulated so far; `None` until the first registration.
    pub closed spec fn registry_spec(&self) -> Option<Seq<RegistryEntry<A>>> {
        match self.authenticators {
            Some(entries) => Some(entries@),
            None => None,
        }
    }

    /// The body-size limit supplied so far.
    pub closed spec fn body_len_limit_spec(&self) -> Option<usize> {
        self.body_len_limit
    }

    /// A builder with nothing supplied yet.
    pub fn new() -> (r: Self)
        ensures
            r.dispatcher_spec() is None,
            r.registry_spec() is None,
            r.body_len_limit_spec() is None,
    {
        FrontEndHandlerBuilder { dispatcher: None, authenticators: None, body_len_limit: None }
    }

    /// Supplies the dispatcher, replacing any previous one.
    pub fn with_dispatcher(self, dispatcher: D) -> (r: Self)
        ensures
            r.dispatcher_spec() == Some(dispatcher),
            r.registry_spec() == self.registry_spec(),
            r.body_len_limit_spec() == self.body_len_limit_spec(),
    {
        let FrontEndHandlerBuilder { dispatcher: _, authenticators, body_len_limit } = self;
        FrontEndHandlerBuilder { dispatcher: Some(dispatcher), authenticators, body_len_limit }
    }

    /// Registers an authenticator for `auth_type` into the lazily created
    /// registry, replacing the one previously registered for that type if
    /// there was one and leaving every other type's registration unchanged.
    #[verifier::loop_isolation(false)]
    pub fn with_authenticator(self, auth_type: AuthType, authenticator: A) -> (r: Self)
        ensures
            r.dispatcher_spec() == self.dispatcher_spec(),
            r.body_len_limit_spec() == self.body_len_limit_spec(),
            ({
                &&& r.registry_spec() matches Some(entries)
                &&& forall|t: AuthType| #[trigger] lookup(entries, t) == (if t == auth_type {
                    Some(authenticator)
                } else {
                    match self.registry_spec() {
                        Some(previous) => lookup(previous, t),
                        None => None,
                    }
                })
            }),
    {
        let FrontEndHandlerBuilder { dispatcher, authenticators, body_len_limit } = self;
        let mut entries = match authenticators {
            Some(entries) => entries,
            None => Vec::new(),
        };
        let new_entry = RegistryEntry { auth_type, authenticator };
        let ghost before = entries@;
        let mut i: usize = 0;
        while i < entries.len()
            invariant
                i <= entries.len(),
                entries@ == before,
                forall|j: int| 0 <= j < i ==> before[j].auth_type != auth_type,
            decreases entries.len() - i,
        {
            if entries[i].auth_type == auth_type {
                proof {
                    lemma_lookup_update(before, i as int, new_entry);
                }
                entries.set(i, new_entry);
                return FrontEndHandlerBuilder {
                    dispatcher,
                    authenticators: Some(entries),
                    body_len_limit,
                };
            }
            i = i + 1;
        }
        proof {
            lemma_lookup_push(before, new_entry);
        }
        entries.push(new_entry);
        FrontEndHandlerBuilder { dispatcher, authenticators: Some(entries), body_len_limit }
    }

    /// Supplies the body-size limit, replacing any previous one.
    pub fn with_body_len_limit(self, body_len_limit: usize) -> (r: Self)
        ensures
            r.dispatcher_spec() == self.dispatcher_spec(),
            r.registry_spec() == self.registry_spec(),
            r.body_len_limit_spec() == Some(body_len_limit),
    {
        let FrontEndHandlerBuilder { dispatcher, authenticators, body_len_limit: _ } = self;
        FrontEndHandlerBuilder { dispatcher, authenticators, body_len_limit: Some(body_len_limit) }
    }

    /// Validates that the three required values were all supplied and
    /// freezes them into a handler; fails with the distinct error of the
    /// first missing one otherwise, checking the dispatcher, then the
    /// registry, then the limit.
    pub fn build(self) -> (r: Result<FrontEndHandler<D, A>, BuildError>)
        ensures
            (self.dispatcher_spec() is None ==> r == Err::<
                FrontEndHandler<D, A>,
                BuildError,
            >(BuildError::MissingDispatcher)),
            (self.dispatcher_spec() is Some && self.registry_spec() is None ==> r == Err::<
                FrontEndHandler<D, A>,
                BuildError,
            >(BuildError::MissingAuthenticators)),
            (self.dispatcher_spec() is Some && self.registry_spec() is Some
                && self.body_len_limit_spec() is None ==> r == Err::<
                FrontEndHandler<D, A>,
                BuildError,
            >(BuildError::MissingBodyLenLimit)),
            (self.dispatcher_spec() is Some && self.registry_spec() is Some
                && self.body_len_limit_spec() is Some ==> ({
                &&& r matches Ok(handler)
                &&& handler.dispatcher_spec() == self.dispatcher_spec()->0
                &&& Some(handler.registry()) == self.registry_spec()
                &&& Some(handler.body_len_limit_spec()) == self.body_len_limit_spec()
            })),
    {
        let FrontEndHandlerBuilder { dispatcher, authenticators, body_len_limit } = self;
        let dispatcher = match dispatcher {
            Some(dispatcher) => dispatcher,
            None => {
                return Err(BuildError::MissingDispatcher);
            },
        };
        let authenticators = match authenticators {
            Some(authenticators) => authenticators,
            None => {
                return Err(BuildError::MissingAuthenticators);
            },
        };
        let body_len_limit = match body_len_limit {
            Some(body_len_limit) => body_len_limit,
            None => {
                return Err(BuildError::MissingBodyLenLimit);
            },
        };
        Ok(FrontEndHandler { dispatcher, authenticators, body_len_limit })
    }
}

impl<D, A> Default for FrontEndHandlerBuilder<D, A> {
    /// Same as [`FrontEndHandlerBuilder::new`]: nothing supplied yet.
    fn default() -> (r: Self)
        ensures
            r.dispatcher_spec() is None,
            r.registry_spec() is None,
            r.body_len_limit_spec() is None,
    {
        FrontEndHandlerBuilder::new()
    }
}

} // verus!
