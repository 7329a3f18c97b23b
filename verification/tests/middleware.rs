use async_oidc_jwt_validator::OidcConfig;
use async_oidc_jwt_validator::OidcValidator;
use async_oidc_jwt_validator::Validation;

use axum_jwt_oidc::dispatch::auth_step;
use axum_jwt_oidc::dispatch::settle_claims;
use axum_jwt_oidc::dispatch::AuthAction;
use axum_jwt_oidc::dispatch::AuthEvent;
use axum_jwt_oidc::dispatch::AuthPhase;
use axum_jwt_oidc::layer::OidcAuthLayer;
use axum_jwt_oidc::middleware::forward_response;
use axum_jwt_oidc::slot::ClaimsSlot;

#[derive(Debug, Clone, PartialEq)]
struct TestClaims {
    sub: String,
    exp: i64,
}

#[derive(Debug, Clone, PartialEq)]
struct EmailClaims {
    sub: String,
    email: String,
}

#[derive(Debug, Clone, PartialEq)]
struct OtherClaims {
    role: String,
}

/// A stand-in inner handler: answers 200, with a body that says whether the
/// request carried verified claims.
fn run_handler(slot: &ClaimsSlot<TestClaims>) -> (u16, String) {
    match slot.get() {
        Some(_) => (200, String::from("Authenticated")),
        None => (200, String::from("Not authenticated")),
    }
}

fn test_layer() -> OidcAuthLayer<TestClaims> {
    let config = OidcConfig::new(
        "https://example.com".to_string(),
        "test-client-id".to_string(),
        "https://example.com/.well-known/jwks.json".to_string(),
    );
    let oidc_validator = OidcValidator::new(config);
    let validation = Validation::default();
    OidcAuthLayer::<TestClaims>::new(oidc_validator, validation)
}

struct TestHandler;

#[test]
fn test_middleware_without_token() {
    // A request to "/test" without an Authorization header passes through:
    // the validator is never consulted, the handler sees an empty slot.
    let auth_layer = test_layer();
    let _middleware = auth_layer.layer(TestHandler);

    let mut slot: ClaimsSlot<TestClaims> = ClaimsSlot::empty();
    let (phase, action) = auth_step(AuthPhase::Arriving, AuthEvent::HeaderRead(None));
    assert!(matches!(action, AuthAction::Dispatch));
    match phase {
        AuthPhase::Settled(outcome) => {
            assert!(outcome.is_none());
            settle_claims(&mut slot, outcome);
        }
        _ => panic!("request did not settle"),
    }

    let response = forward_response(run_handler(&slot));
    assert_eq!(response.0, 200);
    assert_eq!(response.1, "Not authenticated");
}

#[test]
fn test_middleware_with_invalid_token() {
    // A request whose bearer token the validator rejects still passes
    // through, with an empty slot.
    let auth_layer = test_layer();
    let _middleware = auth_layer.layer(TestHandler);

    let mut slot: ClaimsSlot<TestClaims> = ClaimsSlot::empty();
    let header = Some(String::from("Bearer invalid.jwt.token"));
    let (phase, action) = auth_step(AuthPhase::Arriving, AuthEvent::HeaderRead(header));
    match action {
        AuthAction::Validate(token) => assert_eq!(token, "invalid.jwt.token"),
        AuthAction::Dispatch => panic!("a token was presented, so validation is demanded"),
    }

    // The validator rejects the token; the verdict carries no claims.
    let (phase, action) = auth_step(phase, AuthEvent::ValidationDone(None));
    assert!(matches!(action, AuthAction::Dispatch));
    match phase {
        AuthPhase::Settled(outcome) => settle_claims(&mut slot, outcome),
        _ => panic!("request did not settle"),
    }

    let response = forward_response(run_handler(&slot));
    assert_eq!(response.0, 200);
    assert_eq!(response.1, "Not authenticated");
}

#[test]
fn test_middleware_with_accepted_token() {
    // A token the validator accepts, whose identity decodes, ends with
    // exactly those claims attached for the handler to read.
    let mut slot: ClaimsSlot<TestClaims> = ClaimsSlot::empty();
    let header = Some(String::from("Bearer good.jwt.token"));
    let (phase, action) = auth_step(AuthPhase::Arriving, AuthEvent::HeaderRead(header));
    match action {
        AuthAction::Validate(token) => assert_eq!(token, "good.jwt.token"),
        AuthAction::Dispatch => panic!("a token was presented, so validation is demanded"),
    }

    let decoded = TestClaims { sub: String::from("u1"), exp: 2000000000 };
    let (phase, action) = auth_step(phase, AuthEvent::ValidationDone(Some(decoded.clone())));
    assert!(matches!(action, AuthAction::Dispatch));
    match phase {
        AuthPhase::Settled(outcome) => {
            assert_eq!(outcome, Some(decoded.clone()));
            settle_claims(&mut slot, outcome);
        }
        _ => panic!("request did not settle"),
    }

    let (status, body) = run_handler(&slot);
    assert_eq!(status, 200);
    assert_eq!(body, "Authenticated");
    assert_eq!(slot.into_claims(), Some(decoded));
}

#[test]
fn handler_observes_decoded_identity() {
    // The claims the handler reads are the decoded identity, unchanged:
    // {sub: "u1", email: "a@b.com"}.
    let mut slot: ClaimsSlot<EmailClaims> = ClaimsSlot::empty();
    let decoded = EmailClaims { sub: String::from("u1"), email: String::from("a@b.com") };
    let (phase, _) = auth_step(
        AuthPhase::Arriving,
        AuthEvent::HeaderRead(Some(String::from("Bearer accepted.jwt.token"))),
    );
    let (phase, _) = auth_step(phase, AuthEvent::ValidationDone(Some(decoded.clone())));
    match phase {
        AuthPhase::Settled(outcome) => settle_claims(&mut slot, outcome),
        _ => panic!("request did not settle"),
    }

    let observed = slot.into_claims().expect("claims were attached");
    assert_eq!(observed.sub, "u1");
    assert_eq!(observed.email, "a@b.com");
}

#[test]
fn two_routes_with_different_claim_shapes_do_not_interfere() {
    // One validator backs two routes with two different claims shapes;
    // each route's slot holds only its own shape and outcome.
    let config = OidcConfig::new(
        "https://example.com".to_string(),
        "test-client-id".to_string(),
        "https://example.com/.well-known/jwks.json".to_string(),
    );
    let oidc_validator = OidcValidator::new(config);
    let first_layer =
        OidcAuthLayer::<TestClaims>::new(oidc_validator.clone(), Validation::default());
    let second_layer = OidcAuthLayer::<OtherClaims>::new(oidc_validator, Validation::default());
    let _first_route = first_layer.layer(TestHandler);
    let _second_route = second_layer.layer(TestHandler);

    let mut first_slot: ClaimsSlot<TestClaims> = ClaimsSlot::empty();
    let mut second_slot: ClaimsSlot<OtherClaims> = ClaimsSlot::empty();

    let first_decoded = TestClaims { sub: String::from("u1"), exp: 2000000000 };
    settle_claims(&mut first_slot, Some(first_decoded.clone()));
    settle_claims(&mut second_slot, None);

    assert_eq!(first_slot.into_claims(), Some(first_decoded));
    assert_eq!(second_slot.into_claims(), None);
}

#[test]
fn concurrent_requests_observe_only_their_own_outcome() {
    // Several in-flight requests with distinct tokens and mixed outcomes:
    // each request's slot reflects that request's verdict alone.
    let headers = [
        None,
        Some(String::from("Bearer first.jwt.token")),
        Some(String::from("Bearer second.jwt.token")),
    ];
    let verdicts = [
        None,
        None,
        Some(TestClaims { sub: String::from("u2"), exp: 2000000000 }),
    ];

    let mut observed: Vec<Option<TestClaims>> = Vec::new();
    for (header, verdict) in headers.into_iter().zip(verdicts.into_iter()) {
        let mut slot: ClaimsSlot<TestClaims> = ClaimsSlot::empty();
        let (phase, _) = auth_step(AuthPhase::Arriving, AuthEvent::HeaderRead(header));
        let outcome = match phase {
            AuthPhase::Settled(outcome) => outcome,
            AuthPhase::Validating(_) => {
                let (phase, _) = auth_step(phase, AuthEvent::ValidationDone(verdict.clone()));
                match phase {
                    AuthPhase::Settled(outcome) => outcome,
                    _ => panic!("request did not settle"),
                }
            }
            AuthPhase::Arriving => panic!("request did not advance"),
        };
        settle_claims(&mut slot, outcome);
        observed.push(slot.into_claims());
    }

    assert_eq!(observed[0], None);
    assert_eq!(observed[1], None);
    assert_eq!(
        observed[2],
        Some(TestClaims { sub: String::from("u2"), exp: 2000000000 })
    );
}

#[test]
fn response_is_forwarded_unchanged() {
    // Whatever the validation outcome, the response the middleware returns
    // is the inner handler's, byte for byte.
    let response = (
        200u16,
        vec![(String::from("content-type"), String::from("text/plain"))],
        String::from("Not authenticated"),
    );
    let forwarded = forward_response(response.clone());
    assert_eq!(forwarded, response);
}
