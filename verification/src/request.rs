//! The context that travels with one request.

use vstd::prelude::*;
use crate::claims::Claims;
use crate::codec::{issue, signed_token, well_signed};
use crate::config::{AuthConfigMiddleware, ConfigModel};
use crate::session::{Session, SessionModel};

verus! {

/// What one request carries through the pipeline: the value of its
/// authorization header, the configuration once it is attached, and the
/// session once the request is authenticated.
#[derive(Debug)]
pub struct RequestContext {
    authorization: Option<String>,
    config: Option<AuthConfigMiddleware>,
    session: Option<Session>,
}

/// What a [`RequestContext`] holds.
pub struct ContextModel {
    pub authorization: Option<Seq<char>>,
    pub config: Option<ConfigModel>,
    pub session: Option<SessionModel>,
}

impl View for RequestContext {
    type V = ContextModel;

    closed spec fn view(&self) -> ContextModel {
        ContextModel {
            authorization: match self.authorization {
                Some(header) => Some(header@),
                None => None,
            },
            config: match self.config {
                Some(config) => Some(config@),
                None => None,
            },
            session: match self.session {
                Some(session) => Some(session@),
                None => None,
            },
        }
    }
}

impl RequestContext {
    /// The context of a request that arrived with the given authorization
    /// header, or without one. Nothing is attached to it yet.
    pub fn new(authorization: Option<String>) -> (context: RequestContext)
        ensures
            context@ == (ContextModel {
                authorization: match authorization {
                    Some(header) => Some(header@),
                    None => None,
                },
                config: None,
                session: None,
            }),
    {
        RequestContext { authorization, config: None, session: None }
    }

    /// The value of the authorization header, if the request has one.
    pub fn authorization(&self) -> (header: Option<&str>)
        ensures
            match header {
                Some(h) => self@.authorization == Some(h@),
                None => self@.authorization is None,
            },
    {
        match &self.authorization {
            Some(header) => Some(header.as_str()),
            None => None,
        }
    }

    /// The configuration, if one is attached.
    pub fn config(&self) -> (config: Option<&AuthConfigMiddleware>)
        ensures
            match config {
                Some(c) => self@.config == Some(c@),
                None => self@.config is None,
            },
    {
        self.config.as_ref()
    }

    /// Attaches a session to the context; the rest stays.
    pub(crate) fn attach_session(&mut self, session: Session)
        ensures
            final(self)@ == (ContextModel { session: Some(session@), ..old(self)@ }),
    {
        self.session = Some(session);
    }
}

impl AuthConfigMiddleware {
    /// Attaches this configuration to a request before any protected handler
    /// runs; the rest of the context stays.
    pub fn before(&self, context: &mut RequestContext)
        ensures
            final(context)@ == (ContextModel { config: Some(self@), ..old(context)@ }),
    {
        context.config = Some(self.clone());
    }
}

/// What a protected handler can ask of the request it is given.
pub trait AuthReqExt {
    /// Issues a token for the given claims; nothing where no configuration is
    /// attached.
    fn create_token(&self, claims: Claims) -> Option<String>;

    /// The session of the request, once it is authenticated.
    fn session(&self) -> Option<&Session>;
}

impl AuthReqExt for RequestContext {
    fn create_token(&self, claims: Claims) -> (token: Option<String>)
        ensures
            match self@.config {
                Some(config) => match token {
                    Some(t) => signed_token(claims@.payload(), config.secret) == Some(t@)
                        && well_signed(t@, config.secret),
                    None => signed_token(claims@.payload(), config.secret) is None,
                },
                None => token is None,
            },
    {
        match &self.config {
            Some(config) => issue(&claims, config.secret.as_str()),
            None => None,
        }
    }

    fn session(&self) -> (session: Option<&Session>)
        ensures
            match session {
                Some(s) => self@.session == Some(s@),
                None => self@.session is None,
            },
    {
        self.session.as_ref()
    }
}

} // verus!
