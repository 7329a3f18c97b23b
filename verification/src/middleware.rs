//! The middleware instance that wraps one route's inner handler.
//!
//! An instance is produced by attaching an [`OidcAuthLayer`] onto an inner
//! handler. It holds the handler, a shared handle to the external
//! validator, and an owned copy of the immutable validation configuration —
//! and nothing else: no per-request state, so many concurrent requests can
//! share one instance without locking. The per-request work itself is the
//! verified state machine in [`crate::dispatch`], which the hosting
//! framework's service glue drives around the asynchronous validator call.
//!
//! [`OidcAuthLayer`]: crate::layer::OidcAuthLayer

use vstd::prelude::*;

use std::marker::PhantomData;
use std::sync::Arc;

use async_oidc_jwt_validator::OidcValidator;
use async_oidc_jwt_validator::Validation;

verus! {

/// The middleware service for one route: an inner handler wrapped with the
/// shared validator handle and the route's validation configuration.
///
/// Instances are created by [`crate::layer::OidcAuthLayer::layer`], not
/// directly.
pub struct OidcAuthMiddleware<S, T> {
    pub(crate) inner: S,
    pub(crate) oidc_validator: Arc<OidcValidator>,
    pub(crate) validation: Validation,
    pub(crate) _phantom: PhantomData<T>,
}

impl<S, T> OidcAuthMiddleware<S, T> {
    /// The wrapped inner handler.
    pub closed spec fn spec_inner(&self) -> S {
        self.inner
    }

    /// The shared validator handle behind this instance.
    pub closed spec fn spec_validator(&self) -> Arc<OidcValidator> {
        self.oidc_validator
    }

    /// This instance's copy of the validation configuration.
    pub closed spec fn spec_validation(&self) -> Validation {
        self.validation
    }

    /// Wraps an inner handler with a validator handle and a configuration,
    /// as a layer does for each route it is attached to. Hosting-framework
    /// glue that carries the instance's parts in a type of its own uses
    /// this to rebuild the instance.
    pub fn wrap(inner: S, oidc_validator: Arc<OidcValidator>, validation: Validation) -> (m: Self)
        ensures
            m.spec_inner() == inner,
            m.spec_validator() == oidc_validator,
            m.spec_validation() == validation,
    {
        OidcAuthMiddleware { inner, oidc_validator, validation, _phantom: PhantomData }
    }

    /// Splits the instance into the inner handler, the shared validator
    /// handle and the configuration, for hosting-framework glue that must
    /// drive the handler itself.
    pub fn into_parts(self) -> (r: (S, Arc<OidcValidator>, Validation))
        ensures
            r.0 == self.spec_inner(),
            r.1 == self.spec_validator(),
            r.2 == self.spec_validation(),
    {
        let OidcAuthMiddleware { inner, oidc_validator, validation, _phantom } = self;
        (inner, oidc_validator, validation)
    }
}

impl<S: Clone, T> Clone for OidcAuthMiddleware<S, T> {
    /// A clone of the instance shares the same validator handle, carries
    /// an equal copy of the configuration, and wraps a clone of the inner
    /// handler — whatever that handler's own `Clone` produces.
    fn clone(&self) -> (r: Self)
        ensures
            r.spec_validator() == self.spec_validator(),
            r.spec_validation() == self.spec_validation(),
            cloned::<S>(self.spec_inner(), r.spec_inner()),
    {
        OidcAuthMiddleware {
            inner: self.inner.clone(),
            oidc_validator: crate::binding::clone_validator_handle(&self.oidc_validator),
            validation: self.validation.clone(),
            _phantom: PhantomData,
        }
    }
}

/// Returns the inner handler's response exactly as it came: whatever the
/// validation outcome was, the middleware never mutates the response's
/// status, headers or body, and never substitutes a response of its own.
pub fn forward_response<R>(response: R) -> (r: R)
    ensures
        r == response,
{
    response
}

} // verus!
