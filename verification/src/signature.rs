//! The verdict on an inbound signed payload.
//!
//! The cryptography is done elsewhere: the caller recomputes the signature
//! over the canonical payload with the public key that the object resolver
//! found for the claimed actor, and hands both signatures in. What is
//! decided here is which rejection, if any, the payload meets.

use vstd::prelude::*;

verus! {

/// Why an inbound payload is rejected. A rejection is reported to the
/// sender's request; it is never a fault of this server.
#[derive(Clone, Copy, PartialEq, Eq, Structural, Debug)]
pub enum VerifyError {
    /// The claimed actor's key could not be resolved.
    UnknownActor,
    /// The key that signed is not the key of the claimed actor.
    KeyMismatch,
    /// The supplied signature is not the one recomputed over the payload.
    BadSignature,
    /// The payload was signed outside the accepted time window.
    Expired,
}

/// What a sender claims with a signed payload.
pub struct SignatureClaim {
    /// The identity of the key that the sender says it signed with.
    pub key_id: String,
    /// The signature that came with the payload.
    pub signature: String,
    /// When the sender says it signed.
    pub signed_at: u64,
}

/// What the object resolver found for the claimed actor.
pub struct ActorKey {
    /// The actor's remote identity.
    pub actor: String,
    /// The identity of the actor's public key.
    pub key_id: String,
}

/// A signing time is accepted while it is no further than `window` from
/// `now`, before or after.
pub open spec fn within_window(signed_at: u64, now: u64, window: u64) -> bool {
    signed_at <= now + window && now <= signed_at + window
}

/// The verdict, by the first rejection met: an actor that cannot be
/// resolved, a key that is not the actor's, a signature that differs from
/// the recomputed one, a signing time outside the window. A payload that
/// meets none is accepted as coming from the actor.
pub open spec fn verdict(
    claim: SignatureClaim,
    resolved: Option<ActorKey>,
    recomputed: Seq<char>,
    now: u64,
    window: u64,
) -> Result<Seq<char>, VerifyError> {
    match resolved {
        None => Err(VerifyError::UnknownActor),
        Some(key) => {
            if key.key_id@ != claim.key_id@ {
                Err(VerifyError::KeyMismatch)
            } else if claim.signature@ != recomputed {
                Err(VerifyError::BadSignature)
            } else if !within_window(claim.signed_at, now, window) {
                Err(VerifyError::Expired)
            } else {
                Ok(key.actor@)
            }
        },
    }
}

/// Whether a signing time is accepted at `now`.
pub fn in_window(signed_at: u64, now: u64, window: u64) -> (b: bool)
    ensures
        b == within_window(signed_at, now, window),
{
    if signed_at <= now {
        now - signed_at <= window
    } else {
        signed_at - now <= window
    }
}

/// Decides whether a signed payload is accepted, and as whose.
pub fn verify(
    claim: &SignatureClaim,
    resolved: Option<&ActorKey>,
    recomputed: &String,
    now: u64,
    window: u64,
) -> (r: Result<String, VerifyError>)
    ensures
        match verdict(
            *claim,
            match resolved {
                Some(key) => Some(*key),
                None => None,
            },
            recomputed@,
            now,
            window,
        ) {
            Ok(actor) => r is Ok && r->Ok_0@ == actor,
            Err(e) => r == Err::<String, VerifyError>(e),
        },
{
    match resolved {
        None => Err(VerifyError::UnknownActor),
        Some(key) => {
            if key.key_id != claim.key_id {
                Err(VerifyError::KeyMismatch)
            } else if claim.signature != *recomputed {
                Err(VerifyError::BadSignature)
            } else if !in_window(claim.signed_at, now, window) {
                Err(VerifyError::Expired)
            } else {
                Ok(key.actor.clone())
            }
        },
    }
}

/// A payload is accepted only as the resolved actor's, and only with that
/// actor's key, the recomputed signature and a signing time in the window.
pub proof fn accepted_means_verified(
    claim: SignatureClaim,
    resolved: Option<ActorKey>,
    recomputed: Seq<char>,
    now: u64,
    window: u64,
)
    requires
        verdict(claim, resolved, recomputed, now, window) is Ok,
    ensures
        resolved is Some,
        verdict(claim, resolved, recomputed, now, window)->Ok_0 == resolved->Some_0.actor@,
        resolved->Some_0.key_id@ == claim.key_id@,
        claim.signature@ == recomputed,
        within_window(claim.signed_at, now, window),
{
}

} // verus!
