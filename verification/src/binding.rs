//! The external validator binding, declared for verified use.
//!
//! The middleware consumes the OIDC validator purely as an opaque
//! collaborator: it carries a shared handle to it together with a copy of
//! the validation configuration, and the asynchronous validation call
//! itself is made by the driver outside this library. Only the two types,
//! and the clone operations that construction relies on, are declared here.

use vstd::prelude::*;

verus! {

/// Relies on `async_oidc_jwt_validator::OidcValidator`: the external token
/// validator. This library never looks inside it; it only carries a shared
/// handle to it from construction to each attachment.
#[verifier::external_type_specification]
#[verifier::external_body]
pub struct ExOidcValidator(async_oidc_jwt_validator::OidcValidator);

/// Relies on `jsonwebtoken::Validation`, re-exported by
/// `async_oidc_jwt_validator`: the validation configuration, immutable
/// after construction and opaque to this library.
#[verifier::external_type_specification]
#[verifier::external_body]
pub struct ExValidation(async_oidc_jwt_validator::Validation);

/// Relies on `Validation`'s derived `Clone`: a field-for-field copy, so
/// the clone is the same configuration value.
pub assume_specification[ <async_oidc_jwt_validator::Validation as Clone>::clone ](
    v: &async_oidc_jwt_validator::Validation,
) -> (r: async_oidc_jwt_validator::Validation)
    ensures
        r == *v,
;

/// Relies on std's `Arc::clone`: the new handle refers to the same shared
/// allocation as the old one, so both handles denote the same validator.
#[verifier::external_body]
pub(crate) fn clone_validator_handle(v: &std::sync::Arc<
    async_oidc_jwt_validator::OidcValidator,
>) -> (r: std::sync::Arc<async_oidc_jwt_validator::OidcValidator>)
    ensures
        r == *v,
{
    std::sync::Arc::clone(v)
}

} // verus!
