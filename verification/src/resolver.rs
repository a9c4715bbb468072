//! Token resolution: a two-step sequential fallback. The secure store is
//! tried first; only when it yields nothing is the fallback file read.
//! Whichever tier yields a candidate, the candidate is validated, and a
//! malformed candidate ends resolution there - it is never superseded by
//! the other tier. `spec_resolve` is the whole state machine; the
//! executable steps below are each proved against it.

use vstd::prelude::*;
use crate::auth::{AuthError, AuthToken, spec_valid_token, validate_token};
use crate::keychain::try_keychain;

verus! {

/// What a tier yielded: a candidate token, or nothing.
pub enum TierOutcome {
    Token(Seq<char>),
    Missing,
}

/// How a resolution ends: a token with its provenance tag, no token
/// from either tier, or a candidate that failed validation.
pub enum SpecOutcome {
    Resolved(Seq<char>, Seq<char>),
    NoToken,
    MalformedToken,
}

/// The tier outcome a store read stands for: its token on success,
/// nothing on any failure.
pub open spec fn tier_of(r: Result<String, AuthError>) -> TierOutcome {
    match r {
        Ok(t) => TierOutcome::Token(t@),
        Err(_) => TierOutcome::Missing,
    }
}

/// The resolution state machine. The keychain tier is decisive whenever
/// it yields a candidate: a well-formed one resolves with provenance
/// `keychain`, a malformed one ends the resolution as `MalformedToken`
/// without the fallback tier being consulted. Only a missing keychain
/// candidate lets the fallback tier speak, under the same validation.
pub open spec fn spec_resolve(keychain: TierOutcome, fallback: TierOutcome) -> SpecOutcome {
    match keychain {
        TierOutcome::Token(t) => if spec_valid_token(t) {
            SpecOutcome::Resolved(t, "keychain"@)
        } else {
            SpecOutcome::MalformedToken
        },
        TierOutcome::Missing => match fallback {
            TierOutcome::Token(t) => if spec_valid_token(t) {
                SpecOutcome::Resolved(t, "file"@)
            } else {
                SpecOutcome::MalformedToken
            },
            TierOutcome::Missing => SpecOutcome::NoToken,
        },
    }
}

/// The executable result `r` carries exactly the spec outcome `out`.
pub open spec fn outcome_matches(r: Result<AuthToken, AuthError>, out: SpecOutcome) -> bool {
    match out {
        SpecOutcome::Resolved(t, source) => r matches Ok(a) && a.token@ == t && a.source@
            == source,
        SpecOutcome::NoToken => r matches Err(AuthError::NotFound),
        SpecOutcome::MalformedToken => r matches Err(AuthError::InvalidFormat),
    }
}

/// Where resolution stands after the keychain tier has spoken: decided,
/// or in need of the fallback tier.
#[derive(Debug, PartialEq, Eq)]
pub enum Resolution {
    Done(Result<AuthToken, AuthError>),
    TryFallback,
}

/// Decides the resolution from the keychain tier's outcome alone. A
/// candidate from the keychain settles it - well-formed resolves as
/// `keychain`, malformed fails as `InvalidFormat` - and only a missing
/// candidate asks for the fallback tier.
pub fn resolve_keychain(keychain: Result<String, AuthError>) -> (r: Resolution)
    ensures
        keychain is Ok ==> (r matches Resolution::Done(res) && forall|f: TierOutcome|
            outcome_matches(res, #[trigger] spec_resolve(tier_of(keychain), f))),
        keychain is Err <==> r is TryFallback,
{
    match keychain {
        Ok(token) => match validate_token(token.as_str()) {
            Ok(()) => Resolution::Done(
                Ok(AuthToken { token, source: "keychain".to_owned() }),
            ),
            Err(_) => Resolution::Done(Err(AuthError::InvalidFormat)),
        },
        Err(_) => Resolution::TryFallback,
    }
}

/// Decides the resolution from the fallback tier's outcome, for a
/// resolution the keychain tier left open. A well-formed candidate
/// resolves as `file`, a malformed one fails as `InvalidFormat`, and a
/// tier that yielded nothing ends the resolution as `NotFound`.
pub fn resolve_fallback(fallback: Result<String, AuthError>) -> (r: Result<AuthToken, AuthError>)
    ensures
        outcome_matches(r, spec_resolve(TierOutcome::Missing, tier_of(fallback))),
{
    match fallback {
        Ok(token) => match validate_token(token.as_str()) {
            Ok(()) => Ok(AuthToken { token, source: "file".to_owned() }),
            Err(_) => Err(AuthError::InvalidFormat),
        },
        Err(_) => Err(AuthError::NotFound),
    }
}

/// The whole state machine on both tiers' outcomes at once: the referee
/// that the two lazy steps above are held to.
pub fn resolve_outcome(
    keychain: Result<String, AuthError>,
    fallback: Result<String, AuthError>,
) -> (r: Result<AuthToken, AuthError>)
    ensures
        outcome_matches(r, spec_resolve(tier_of(keychain), tier_of(fallback))),
{
    match resolve_keychain(keychain) {
        Resolution::Done(res) => res,
        Resolution::TryFallback => resolve_fallback(fallback),
    }
}

/// Reads the secure store and decides what it settles: a resolved
/// `keychain` token, an `InvalidFormat` failure, or the need to consult
/// the fallback tier. The fallback file is not touched here under any
/// outcome.
pub fn resolve_token_from_keychain() -> (r: Resolution)
    ensures
        r matches Resolution::Done(res) ==> (res matches Ok(a) ==> spec_valid_token(a.token@)
            && a.source@ == "keychain"@),
        r matches Resolution::Done(res) ==> (res is Err ==> res matches Err(
            AuthError::InvalidFormat,
        )),
{
    let keychain = try_keychain();
    let r = resolve_keychain(keychain);
    proof {
        if keychain is Ok {
            let f = TierOutcome::Missing;
            assert(r matches Resolution::Done(res) && outcome_matches(
                res,
                spec_resolve(tier_of(keychain), f),
            ));
        }
    }
    r
}

/// A well-formed keychain candidate resolves to exactly that token with
/// provenance `keychain`, whatever the fallback tier holds: the fallback
/// tier is never consulted.
pub proof fn lemma_keychain_hit_wins(t: Seq<char>, fallback: TierOutcome)
    requires
        spec_valid_token(t),
    ensures
        spec_resolve(TierOutcome::Token(t), fallback) == SpecOutcome::Resolved(t, "keychain"@),
{
}

/// A malformed keychain candidate ends the resolution as
/// `MalformedToken`, whatever the fallback tier holds: it is surfaced,
/// never superseded by a fallback token.
pub proof fn lemma_malformed_keychain_short_circuits(t: Seq<char>, fallback: TierOutcome)
    requires
        !spec_valid_token(t),
    ensures
        spec_resolve(TierOutcome::Token(t), fallback) == SpecOutcome::MalformedToken,
{
}

/// When the keychain tier yields nothing, a well-formed fallback
/// candidate resolves to exactly that token with provenance `file`.
pub proof fn lemma_fallback_fills_in(t: Seq<char>)
    requires
        spec_valid_token(t),
    ensures
        spec_resolve(TierOutcome::Missing, TierOutcome::Token(t)) == SpecOutcome::Resolved(
            t,
            "file"@,
        ),
{
}

/// When both tiers fail to produce a candidate, the resolution ends as
/// `NoToken`.
pub proof fn lemma_both_tiers_empty()
    ensures
        spec_resolve(TierOutcome::Missing, TierOutcome::Missing) == SpecOutcome::NoToken,
{
}

/// Whatever the two tiers hold, a resolution that ends with a token
/// ends with a validated one, tagged by the tier that produced it:
/// `keychain` or `file`, nothing else.
pub proof fn lemma_resolved_tokens_are_validated(keychain: TierOutcome, fallback: TierOutcome)
    ensures
        spec_resolve(keychain, fallback) matches SpecOutcome::Resolved(t, source) ==> (
        spec_valid_token(t) && (source == "keychain"@ || source == "file"@)),
{
}

/// Round trip: a token the store path accepted - `set_auth_token`
/// succeeds only on well-formed tokens - resolves back unchanged with
/// provenance `keychain` once the secure store returns it, with the
/// fallback tier empty.
pub proof fn lemma_store_then_resolve(t: Seq<char>)
    requires
        spec_valid_token(t),
    ensures
        spec_resolve(TierOutcome::Token(t), TierOutcome::Missing) == SpecOutcome::Resolved(
            t,
            "keychain"@,
        ),
{
}

} // verus!
