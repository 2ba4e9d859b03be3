//! The authentication gate in front of a protected handler.

use vstd::prelude::*;
use vstd::string::StrSliceExecFns;
use crate::codec::{verified_claims, verify};
use crate::config::{AuthConfigMiddleware, ConfigModel};
use crate::request::{ContextModel, RequestContext};
use crate::response::{unauthorized_response, Response};
use crate::session::{Session, SessionModel};
use crate::session_key::session_key;

verus! {

/// Where a request stands at the auth gate.
#[derive(Debug, Clone, Copy, PartialEq, Eq, Structural)]
pub enum GateState {
    /// Nothing has been decided yet.
    Start,
    /// No configuration is attached to the request.
    ConfigMissing,
    /// The request has no authorization header, or not one that carries a
    /// bearer credential.
    TokenMissing,
    /// The credential was not accepted.
    TokenInvalid,
    /// The credential was accepted and the session is attached.
    Authenticated,
    /// The protected handler has run.
    HandlerInvoked,
}

impl GateState {
    /// Whether the auth gate is done with the request in this state.
    pub open spec fn terminal(self) -> bool {
        self is ConfigMissing || self is TokenMissing || self is TokenInvalid
            || self is HandlerInvoked
    }

    /// Whether this state ends the request without the handler.
    pub open spec fn rejected(self) -> bool {
        self is ConfigMissing || self is TokenMissing || self is TokenInvalid
    }

    /// Whether a request in this state can be in state `next` after one step.
    /// From `Start` the request is turned away for one of three reasons or
    /// authenticated; only an authenticated request goes on to the handler.
    pub open spec fn follows(self, next: GateState) -> bool {
        match self {
            GateState::Start => next.rejected() || next is Authenticated,
            GateState::Authenticated => next is HandlerInvoked,
            _ => false,
        }
    }

    /// Whether the auth gate is done with the request in this state.
    pub fn is_terminal(&self) -> (done: bool)
        ensures
            done == self.terminal(),
    {
        match self {
            GateState::Start | GateState::Authenticated => false,
            _ => true,
        }
    }

    /// The response the auth gate gives in this state: the same for each of the
    /// three failures, none in any other state.
    pub fn response(&self) -> (response: Option<Response>)
        ensures
            match response {
                Some(r) => self.rejected() && r@ == unauthorized_response(),
                None => !self.rejected(),
            },
    {
        match self {
            GateState::ConfigMissing | GateState::TokenMissing | GateState::TokenInvalid => Some(
                Response::unauthorized(),
            ),
            _ => None,
        }
    }
}

/// The scheme that a bearer credential is announced with, and the space
/// that follows it.
pub open spec fn bearer_scheme() -> Seq<char> {
    "Bearer "@
}

/// The credential in the value of an authorization header: what follows the
/// scheme, where the value starts with the scheme and something follows.
pub open spec fn bearer_credential(header: Seq<char>) -> Option<Seq<char>> {
    if bearer_scheme().is_prefix_of(header) && header.len() > bearer_scheme().len() {
        Some(header.skip(bearer_scheme().len() as int))
    } else {
        None
    }
}

/// The credential that a request presents, given the value of its
/// authorization header if it has one.
pub open spec fn presented_credential(authorization: Option<Seq<char>>) -> Option<Seq<char>> {
    match authorization {
        Some(header) => bearer_credential(header),
        None => None,
    }
}

/// What the auth gate decides for a request at time `now`: the session it grants,
/// or the state in which it turns the request away. A missing configuration
/// is found first, then a missing credential, then an invalid one.
pub open spec fn admission(
    config: Option<ConfigModel>,
    authorization: Option<Seq<char>>,
    now: u64,
) -> Result<SessionModel, GateState> {
    match config {
        None => Err(GateState::ConfigMissing),
        Some(config) => match presented_credential(authorization) {
            None => Err(GateState::TokenMissing),
            Some(token) => match verified_claims(token, config.secret, now) {
                None => Err(GateState::TokenInvalid),
                Some(claims) => Ok(
                    SessionModel { session_id: session_key(claims.uid, token), claims },
                ),
            },
        },
    }
}

/// Extracts the bearer credential from the value of an authorization header.
pub fn bearer_token(header: &str) -> (token: Option<String>)
    ensures
        match token {
            Some(t) => bearer_credential(header@) == Some(t@),
            None => bearer_credential(header@) is None,
        },
{
    proof {
        reveal_strlit("Bearer ");
    }
    let scheme = "Bearer ";
    let length = header.unicode_len();
    if length <= 7 {
        return None;
    }
    let mut at: usize = 0;
    while at < 7
        invariant
            at <= 7,
            length == header@.len(),
            length > 7,
            scheme@ == bearer_scheme(),
            scheme@.len() == 7,
            forall|j: int| 0 <= j < at ==> header@[j] == scheme@[j],
        decreases 7 - at,
    {
        if header.get_char(at) != scheme.get_char(at) {
            return None;
        }
        at = at + 1;
    }
    Some(header.substring_char(7, length).to_owned())
}

/// What an optional configuration holds.
pub open spec fn config_model(config: Option<&AuthConfigMiddleware>) -> Option<ConfigModel> {
    match config {
        Some(c) => Some(c@),
        None => None,
    }
}

/// What an optional header value holds.
pub open spec fn header_model(authorization: Option<&str>) -> Option<Seq<char>> {
    match authorization {
        Some(header) => Some(header@),
        None => None,
    }
}

/// Decides whether a request is let through at time `now`: checks the
/// credential in the authorization header against the configured secret and
/// binds the claims to their session key.
pub fn authenticate(
    config: Option<&AuthConfigMiddleware>,
    authorization: Option<&str>,
    now: u64,
) -> (decision: Result<Session, GateState>)
    ensures
        match decision {
            Ok(session) => admission(config_model(config), header_model(authorization), now) == Ok::<
                SessionModel,
                GateState,
            >(session@),
            Err(state) => admission(config_model(config), header_model(authorization), now) == Err::<
                SessionModel,
                GateState,
            >(state),
        },
{
    let config = match config {
        Some(config) => config,
        None => { return Err(GateState::ConfigMissing); },
    };
    let token = match authorization {
        Some(header) => match bearer_token(header) {
            Some(token) => token,
            None => { return Err(GateState::TokenMissing); },
        },
        None => { return Err(GateState::TokenMissing); },
    };
    let claims = match verify(token.as_str(), config.secret.as_str(), now) {
        Ok(claims) => claims,
        Err(_) => { return Err(GateState::TokenInvalid); },
    };
    let session_id = crate::session_key::derive(claims.uid.as_str(), token.as_str());
    Ok(Session::new(session_id, claims))
}

/// Runs the auth gate on a request at time `now`. Where the request is let
/// through, its session is attached to the context and the state is
/// `Authenticated`; where it is not, the context stays as it was and the
/// state says why.
pub fn authorize(context: &mut RequestContext, now: u64) -> (state: GateState)
    ensures
        match admission(old(context)@.config, old(context)@.authorization, now) {
            Ok(session) => {
                &&& state == GateState::Authenticated
                &&& final(context)@ == (ContextModel { session: Some(session), ..old(context)@ })
            },
            Err(rejection) => {
                &&& state == rejection
                &&& state.rejected()
                &&& final(context)@ == old(context)@
            },
        },
        GateState::Start.follows(state),
{
    match authenticate(context.config(), context.authorization(), now) {
        Ok(session) => {
            context.attach_session(session);
            GateState::Authenticated
        },
        Err(rejection) => rejection,
    }
}

/// How the auth gate answered a request.
#[derive(Debug)]
pub enum Outcome<R> {
    /// The request was turned away with this response; the handler did not
    /// run.
    Unauthorized(Response),
    /// The handler ran and gave this result.
    Handled(R),
}

/// A protected handler behind the auth gate.
pub struct AuthWrapper<H> {
    handler: H,
}

impl<H> AuthWrapper<H> {
    /// The handler behind the auth gate.
    pub closed spec fn protected(&self) -> H {
        self.handler
    }

    /// Puts a handler behind the auth gate.
    pub fn wrap(handler: H) -> (wrapper: AuthWrapper<H>)
        ensures
            wrapper.protected() == handler,
    {
        AuthWrapper { handler }
    }

    /// The handler behind the auth gate.
    pub fn handler(&self) -> (handler: &H)
        ensures
            *handler == self.protected(),
    {
        &self.handler
    }

    /// Answers a request at time `now`. A request that is let through reaches
    /// the handler with its session attached, and the handler's result is
    /// handed back as it is. Every other request gets the same response,
    /// status 401 and no body, and the handler does not run.
    pub fn handle<R>(&self, context: &mut RequestContext, now: u64) -> (outcome: Outcome<R>) where
        H: Fn(&RequestContext) -> R,

        requires
            forall|admitted: &RequestContext|
                admitted@.session is Some && admitted@.config is Some
                    ==> #[trigger] self.protected().requires((admitted,)),
        ensures
            match admission(old(context)@.config, old(context)@.authorization, now) {
                Ok(session) => {
                    &&& final(context)@ == (ContextModel {
                        session: Some(session),
                        ..old(context)@
                    })
                    &&& outcome matches Outcome::Handled(result)
                    &&& self.protected().ensures((final(context),), result)
                },
                Err(_) => {
                    &&& final(context)@ == old(context)@
                    &&& outcome matches Outcome::Unauthorized(response)
                    &&& response@ == unauthorized_response()
                },
            },
    {
        let state = authorize(context, now);
        match state.response() {
            Some(response) => Outcome::Unauthorized(response),
            None => {
                let admitted: &RequestContext = &*context;
                assert(self.protected().requires((admitted,)));
                Outcome::Handled((self.handler)(admitted))
            },
        }
    }
}

/// A state is terminal exactly when nothing follows it, and the handler runs
/// only for a request that was authenticated.
pub proof fn lemma_handler_runs_only_after_authentication(state: GateState)
    ensures
        state.terminal() <==> forall|next: GateState| !state.follows(next),
        state.follows(GateState::HandlerInvoked) <==> state is Authenticated,
{
    if !state.terminal() {
        if state is Start {
            assert(state.follows(GateState::Authenticated));
        } else {
            assert(state.follows(GateState::HandlerInvoked));
        }
    }
}

/// A request without an authorization header is never let through, whatever
/// the configuration and the time.
pub proof fn lemma_missing_header_is_rejected(config: Option<ConfigModel>, now: u64)
    ensures
        admission(config, None, now) matches Err(state) && state.rejected(),
{
}

/// A request is let through only with a configuration, a bearer credential
/// in its header, and claims that the credential grants at that time; the
/// session it gets holds those claims under the key derived from them.
pub proof fn lemma_admission_needs_valid_token(
    config: Option<ConfigModel>,
    authorization: Option<Seq<char>>,
    now: u64,
)
    ensures
        admission(config, authorization, now) matches Ok(session) ==> {
            &&& config matches Some(c)
            &&& presented_credential(authorization) matches Some(token)
            &&& verified_claims(token, c.secret, now) == Some(session.claims)
            &&& session.session_id == session_key(session.claims.uid, token)
            &&& now < session.claims.exp
        },
        admission(config, authorization, now) matches Err(state) ==> state.rejected(),
{
}

} // verus!
