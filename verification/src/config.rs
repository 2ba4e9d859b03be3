//! The configuration shared by every request.

use vstd::prelude::*;

verus! {

/// The signing secret and the parameters of the store connection. Built once
/// when the server starts and only read afterwards.
#[derive(Debug)]
pub struct AuthConfigMiddleware {
    /// The secret that tokens are signed and checked with.
    pub secret: String,
    /// Where the store is, as a URI.
    pub redis_params: String,
}

/// What an [`AuthConfigMiddleware`] holds.
pub struct ConfigModel {
    pub secret: Seq<char>,
    pub redis_params: Seq<char>,
}

impl View for AuthConfigMiddleware {
    type V = ConfigModel;

    open spec fn view(&self) -> ConfigModel {
        ConfigModel { secret: self.secret@, redis_params: self.redis_params@ }
    }
}

impl Clone for AuthConfigMiddleware {
    fn clone(&self) -> (copy: Self)
        ensures
            copy@ == self@,
    {
        AuthConfigMiddleware {
            secret: self.secret.clone(),
            redis_params: self.redis_params.clone(),
        }
    }
}

/// Whether `redis` reads the text as connection parameters: whether
/// `IntoConnectionInfo::into_connection_info` returns a value for it.
pub uninterp spec fn connection_params_parse(params: Seq<char>) -> bool;

/// `IntoConnectionInfo::into_connection_info` of `redis` on a string slice:
/// whether it returns connection information and not an error.
#[verifier::external_body]
fn parses_as_connection_params(params: &str) -> (parsed: bool)
    ensures
        parsed == connection_params_parse(params@),
{
    r2d2_redis::redis::IntoConnectionInfo::into_connection_info(params).is_ok()
}

impl AuthConfigMiddleware {
    /// A configuration with the given secret and store parameters. The
    /// parameters must be ones that the store client can read; `try_new`
    /// tests that.
    pub fn new(secret: String, redis_params: String) -> (config: AuthConfigMiddleware)
        requires
            connection_params_parse(redis_params@),
        ensures
            config@ == (ConfigModel { secret: secret@, redis_params: redis_params@ }),
    {
        AuthConfigMiddleware { secret, redis_params }
    }

    /// A configuration with the given secret and store parameters, or
    /// nothing where the store client cannot read the parameters.
    pub fn try_new(secret: String, redis_params: String) -> (config: Option<AuthConfigMiddleware>)
        ensures
            match config {
                Some(c) => connection_params_parse(redis_params@) && c@ == (ConfigModel {
                    secret: secret@,
                    redis_params: redis_params@,
                }),
                None => !connection_params_parse(redis_params@),
            },
    {
        if parses_as_connection_params(redis_params.as_str()) {
            Some(AuthConfigMiddleware::new(secret, redis_params))
        } else {
            None
        }
    }
}

} // verus!
