//! The attachable layer: construction and wiring of the middleware.
//!
//! A layer is built once from a validator and a validation configuration,
//! and can then be attached to any number of routes. Every attachment made
//! from one layer shares the same validator handle — the validator is a
//! reference-counted, immutable-after-construction resource — while each
//! attachment carries its own copy of the configuration. The claims shape
//! is a type parameter, so one validator can back differently shaped
//! attachments at the same time.

use vstd::prelude::*;

use std::marker::PhantomData;
use std::sync::Arc;

use async_oidc_jwt_validator::OidcValidator;
use async_oidc_jwt_validator::Validation;

use crate::middleware::OidcAuthMiddleware;

verus! {

/// A pipeline layer that adds bearer-token authentication, for claims of
/// shape `T`, to the routes it is attached to.
pub struct OidcAuthLayer<T> {
    oidc_validator: Arc<OidcValidator>,
    validation: Validation,
    _phantom: PhantomData<T>,
}

impl<T> OidcAuthLayer<T> {
    /// The shared validator handle this layer wires into every attachment.
    pub closed spec fn spec_validator(&self) -> Arc<OidcValidator> {
        self.oidc_validator
    }

    /// The validation configuration this layer copies into every
    /// attachment.
    pub closed spec fn spec_validation(&self) -> Validation {
        self.validation
    }

    /// Creates a new authentication layer from the provided validator and
    /// validation rules. The validator moves behind a shared handle; the
    /// configuration is owned and immutable from here on.
    pub fn new(oidc_validator: OidcValidator, validation: Validation) -> (s: Self)
        ensures
            s.spec_validator() == oidc_validator,
            s.spec_validation() == validation,
    {
        OidcAuthLayer { oidc_validator: Arc::new(oidc_validator), validation, _phantom: PhantomData }
    }

    /// Attaches this layer onto an inner handler, producing the middleware
    /// instance for one route: it wraps exactly that handler, shares this
    /// layer's validator handle, and carries its own copy of this layer's
    /// configuration.
    pub fn layer<S>(&self, inner: S) -> (m: OidcAuthMiddleware<S, T>)
        ensures
            m.spec_inner() == inner,
            m.spec_validator() == self.spec_validator(),
            m.spec_validation() == self.spec_validation(),
    {
        OidcAuthMiddleware::wrap(
            inner,
            crate::binding::clone_validator_handle(&self.oidc_validator),
            self.validation.clone(),
        )
    }
}

impl<T> Clone for OidcAuthLayer<T> {
    /// A clone of the layer shares the same validator handle and carries
    /// an equal copy of the immutable configuration: attachments made from
    /// the clone back the very same validator.
    fn clone(&self) -> (r: Self)
        ensures
            r.spec_validator() == self.spec_validator(),
            r.spec_validation() == self.spec_validation(),
    {
        OidcAuthLayer {
            oidc_validator: crate::binding::clone_validator_handle(&self.oidc_validator),
            validation: self.validation.clone(),
            _phantom: PhantomData,
        }
    }
}

} // verus!
