//! Bearer-token authentication middleware for an HTTP request pipeline.
//!
//! The middleware extracts a bearer token from a request's `Authorization`
//! header, hands it to an external OIDC validator, and on success attaches
//! the decoded claims to the request's per-request storage. Whatever the
//! outcome, the inner handler runs and its response is returned unchanged:
//! this stage never rejects a request itself.
//!
//! The request-processing step is modelled as a small state machine
//! ([`dispatch`]): the driver reads the header, performs the asynchronous
//! validator call that the machine asks for, and feeds the outcome back.
//! Every decision the middleware makes is a verified function of that
//! request's own header and validator verdict alone.

pub mod binding;
pub mod dispatch;
pub mod layer;
pub mod middleware;
pub mod slot;
pub mod token;

pub use layer::OidcAuthLayer;
pub use middleware::OidcAuthMiddleware;
