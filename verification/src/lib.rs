//! Token-authenticated sessions held in a remote hash store.
//!
//! A request presents a signed token as bearer credential. The auth gate
//! checks the token, derives the key of the session record from it, and lets
//! the request through to a protected handler, which reads and writes the
//! fields of that record.

pub mod claims;
pub mod codec;
pub mod config;
pub mod error;
pub mod gate;
pub mod json;
pub mod request;
pub mod response;
pub mod session;
pub mod session_key;
pub mod store;

pub use claims::Claims;
pub use config::AuthConfigMiddleware;
pub use error::{AuthenticationFailure, Error};
pub use gate::{AuthWrapper, GateState, Outcome};
pub use request::{AuthReqExt, RequestContext};
pub use response::Response;
pub use session::Session;
