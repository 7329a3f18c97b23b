//! The per-request authentication step, as a state machine.
//!
//! One request moves through at most three phases: it arrives, its token —
//! if it presented one — is handed to the validator, and it settles with
//! either decoded claims or nothing. The machine itself performs no I/O:
//! a driver reads the header, makes the asynchronous validator call the
//! machine asks for, and feeds each observation back as an event. Every
//! decision is thereby a verified function of that request's own header
//! and validator verdict; the machine has no state shared between requests.
//!
//! The machine can never reject a request: the only terminal action is to
//! dispatch the inner handler. Authentication failures of every kind —
//! missing header, malformed scheme, invalid token, claims that do not
//! decode — settle the request with an empty claims slot and nothing more.

use vstd::prelude::*;

use crate::slot::ClaimsSlot;
use crate::token::spec_token_of;
use crate::token::token_of_header;

verus! {

/// Where one request's authentication step stands.
pub enum AuthPhase<T> {
    /// The request has arrived; its header has not been read yet.
    Arriving,
    /// A token was extracted and handed to the validator.
    Validating(String),
    /// The step is over: claims were decoded, or the request passes
    /// through unauthenticated.
    Settled(Option<T>),
}

/// What the driver observed since the last step.
pub enum AuthEvent<T> {
    /// The `Authorization` header value, or `None` when the header is
    /// missing or not readable as text.
    HeaderRead(Option<String>),
    /// What the validator call produced: decoded claims of the caller's
    /// shape, or `None` for any failure. The middleware never branches on
    /// the kind of failure.
    ValidationDone(Option<T>),
}

/// What the driver must do next.
pub enum AuthAction {
    /// Hand this token to the validator and report the outcome.
    Validate(String),
    /// Invoke the inner handler with the request as it now stands.
    Dispatch,
}

/// The phase of a request, with its token as a sequence of characters.
pub enum SpecAuthPhase<T> {
    Arriving,
    Validating(Seq<char>),
    Settled(Option<T>),
}

/// An observation, with the header value as a sequence of characters.
pub enum SpecAuthEvent<T> {
    HeaderRead(Option<Seq<char>>),
    ValidationDone(Option<T>),
}

/// A demand on the driver, with the token as a sequence of characters.
pub enum SpecAuthAction {
    Validate(Seq<char>),
    Dispatch,
}

impl<T> View for AuthPhase<T> {
    type V = SpecAuthPhase<T>;

    open spec fn view(&self) -> SpecAuthPhase<T> {
        match self {
            AuthPhase::Arriving => SpecAuthPhase::Arriving,
            AuthPhase::Validating(t) => SpecAuthPhase::Validating(t@),
            AuthPhase::Settled(c) => SpecAuthPhase::Settled(*c),
        }
    }
}

impl<T> View for AuthEvent<T> {
    type V = SpecAuthEvent<T>;

    open spec fn view(&self) -> SpecAuthEvent<T> {
        match self {
            AuthEvent::HeaderRead(h) => SpecAuthEvent::HeaderRead(
                match h {
                    Some(s) => Some(s@),
                    None => None,
                },
            ),
            AuthEvent::ValidationDone(v) => SpecAuthEvent::ValidationDone(*v),
        }
    }
}

impl View for AuthAction {
    type V = SpecAuthAction;

    open spec fn view(&self) -> SpecAuthAction {
        match self {
            AuthAction::Validate(t) => SpecAuthAction::Validate(t@),
            AuthAction::Dispatch => SpecAuthAction::Dispatch,
        }
    }
}

/// Which events can follow which phase: the header is read on arrival, and
/// a verdict arrives only while the validator is consulted. A settled
/// request takes no further event.
pub open spec fn spec_accepts<T>(phase: SpecAuthPhase<T>, event: SpecAuthEvent<T>) -> bool {
    match (phase, event) {
        (SpecAuthPhase::Arriving, SpecAuthEvent::HeaderRead(_)) => true,
        (SpecAuthPhase::Validating(_), SpecAuthEvent::ValidationDone(_)) => true,
        _ => false,
    }
}

/// The transition of the machine: the next phase, and what the driver must
/// do. A missing header settles the request at once; a present header is
/// parsed tolerantly into a token for the validator; the validator's
/// verdict — good or bad — settles the request.
pub open spec fn spec_step<T>(phase: SpecAuthPhase<T>, event: SpecAuthEvent<T>) -> (SpecAuthPhase<
    T,
>, SpecAuthAction)
    recommends
        spec_accepts(phase, event),
{
    match event {
        SpecAuthEvent::HeaderRead(None) => (
            SpecAuthPhase::Settled(None),
            SpecAuthAction::Dispatch,
        ),
        SpecAuthEvent::HeaderRead(Some(h)) => (
            SpecAuthPhase::Validating(spec_token_of(h)),
            SpecAuthAction::Validate(spec_token_of(h)),
        ),
        SpecAuthEvent::ValidationDone(v) => (SpecAuthPhase::Settled(v), SpecAuthAction::Dispatch),
    }
}

/// The claims one request ends with: none without a header, and otherwise
/// exactly what the validator's verdict carried.
pub open spec fn spec_outcome<T>(header: Option<Seq<char>>, verdict: Option<T>) -> Option<T> {
    match header {
        None => None,
        Some(_) => verdict,
    }
}

/// Advances one request's authentication step by one observed event.
pub fn auth_step<T>(phase: AuthPhase<T>, event: AuthEvent<T>) -> (r: (AuthPhase<T>, AuthAction))
    requires
        spec_accepts(phase@, event@),
    ensures
        r.0@ == spec_step(phase@, event@).0,
        r.1@ == spec_step(phase@, event@).1,
{
    match event {
        AuthEvent::HeaderRead(None) => (AuthPhase::Settled(None), AuthAction::Dispatch),
        AuthEvent::HeaderRead(Some(h)) => {
            let token = token_of_header(h.as_str());
            let handed = token.clone();
            (AuthPhase::Validating(token), AuthAction::Validate(handed))
        },
        AuthEvent::ValidationDone(v) => (AuthPhase::Settled(v), AuthAction::Dispatch),
    }
}

/// Writes a settled outcome into the request's claims slot: claims are
/// attached exactly when the validator accepted the token and its identity
/// decoded, and the slot stays empty otherwise.
pub fn settle_claims<T>(slot: &mut ClaimsSlot<T>, outcome: Option<T>)
    requires
        old(slot).claims() is None,
    ensures
        final(slot).claims() == outcome,
{
    match outcome {
        Some(c) => slot.attach(c),
        None => (),
    }
}

/// Pass-through on a missing credential: with no `Authorization` header the
/// request settles at once with an empty claims slot, the validator is
/// never consulted, and the inner handler is dispatched.
pub proof fn lemma_missing_credential_passes_through<T>(verdict: Option<T>)
    ensures
        spec_step::<T>(SpecAuthPhase::Arriving, SpecAuthEvent::HeaderRead(None)) == (
            SpecAuthPhase::Settled(None::<T>),
            SpecAuthAction::Dispatch,
        ),
        spec_outcome::<T>(None, verdict) is None,
{
}

/// Pass-through on a rejected token: a request whose header yields a token
/// the validator rejects settles with an empty claims slot, and the inner
/// handler is still dispatched.
pub proof fn lemma_rejected_token_passes_through<T>(h: Seq<char>)
    ensures
        ({
            let first = spec_step::<T>(SpecAuthPhase::Arriving, SpecAuthEvent::HeaderRead(Some(h)));
            first == (
                SpecAuthPhase::Validating::<T>(spec_token_of(h)),
                SpecAuthAction::Validate(spec_token_of(h)),
            ) && spec_step(first.0, SpecAuthEvent::ValidationDone(None)) == (
                SpecAuthPhase::Settled(None::<T>),
                SpecAuthAction::Dispatch,
            )
        }),
        spec_outcome::<T>(Some(h), None) is None,
{
}

/// The success path: a request whose token the validator accepts, and whose
/// identity decodes into the caller's claims shape, settles with exactly
/// those claims attached, and the inner handler is dispatched.
pub proof fn lemma_accepted_token_attaches_claims<T>(h: Seq<char>, claims: T)
    ensures
        ({
            let first = spec_step::<T>(SpecAuthPhase::Arriving, SpecAuthEvent::HeaderRead(Some(h)));
            first == (
                SpecAuthPhase::Validating::<T>(spec_token_of(h)),
                SpecAuthAction::Validate(spec_token_of(h)),
            ) && spec_step(first.0, SpecAuthEvent::ValidationDone(Some(claims))) == (
                SpecAuthPhase::Settled(Some(claims)),
                SpecAuthAction::Dispatch,
            )
        }),
        spec_outcome::<T>(Some(h), Some(claims)) == Some(claims),
{
}

/// The machine never short-circuits the chain: no step produces a response
/// of its own, every step that settles a request dispatches the inner
/// handler, and a validation demand occurs only while a token is pending.
pub proof fn lemma_never_short_circuits<T>(phase: SpecAuthPhase<T>, event: SpecAuthEvent<T>)
    requires
        spec_accepts(phase, event),
    ensures
        spec_step(phase, event).0 is Settled ==> spec_step(phase, event).1
            == SpecAuthAction::Dispatch,
        spec_step(phase, event).1 is Validate ==> spec_step(phase, event).0 is Validating,
{
}

/// The pair of outcomes of two routes attached against the same validator
/// with two different claims shapes, computed route by route.
pub open spec fn spec_pair_outcome<T, U>(
    first_header: Option<Seq<char>>,
    first_verdict: Option<T>,
    second_header: Option<Seq<char>>,
    second_verdict: Option<U>,
) -> (Option<T>, Option<U>) {
    (spec_outcome(first_header, first_verdict), spec_outcome(second_header, second_verdict))
}

/// Attaching the middleware to two routes with two different claims shapes
/// against the same validator does not interfere: each route's outcome is a
/// function of its own header and verdict alone, whatever the other route
/// observes. The claims slot is moreover keyed by the claims type, so one
/// route's slot cannot even be read at the other route's shape.
pub proof fn lemma_routes_do_not_interfere<T, U>(
    first_header: Option<Seq<char>>,
    first_verdict: Option<T>,
    second_header: Option<Seq<char>>,
    second_verdict: Option<U>,
    other_header: Option<Seq<char>>,
    other_verdict: Option<U>,
)
    ensures
        spec_pair_outcome(first_header, first_verdict, second_header, second_verdict).0
            == spec_pair_outcome(first_header, first_verdict, other_header, other_verdict).0,
        spec_pair_outcome(first_header, first_verdict, second_header, second_verdict).0
            == spec_outcome(first_header, first_verdict),
{
}

/// The outcomes of many concurrent requests, index by index.
pub open spec fn spec_outcomes<T>(
    headers: Seq<Option<Seq<char>>>,
    verdicts: Seq<Option<T>>,
) -> Seq<Option<T>>
    recommends
        headers.len() == verdicts.len(),
{
    Seq::new(headers.len(), |i: int| spec_outcome(headers[i], verdicts[i]))
}

/// Concurrency safety: the middleware holds no per-request state of its
/// own, so any number of in-flight requests are modelled by applying the
/// per-request outcome function index by index. Each request observes only
/// its own claims slot contents — the outcome at position `i` depends on
/// the header and verdict of request `i` alone.
pub proof fn lemma_concurrent_requests_isolated<T>(
    headers: Seq<Option<Seq<char>>>,
    verdicts: Seq<Option<T>>,
    i: int,
)
    requires
        headers.len() == verdicts.len(),
        0 <= i < headers.len(),
    ensures
        spec_outcomes(headers, verdicts)[i] == spec_outcome(headers[i], verdicts[i]),
{
}

} // verus!
