use vstd::prelude::*;
use vstd::string::StringExecFns;

use crate::claims::Claims;

verus! {

/// Why a peer's RA-TLS certificate was refused.
#[derive(Debug)]
pub enum PeerCertError {
    /// The attestation evidence in the certificate did not verify; holds the verifier's error.
    VerifyFailed(String),
    /// The evidence verified, but the user's callback refused the claims; holds its reason.
    RejectedByCallback(String),
}

/// What follows the attestation check of a peer certificate; `C` is the callback type.
pub enum AttestationStep<C> {
    /// Refuse the certificate with this error.
    Reject(PeerCertError),
    /// Accept the certificate.
    Accept,
    /// Hand these claims to this callback and decide by its answer.
    AskCallback(Claims, C),
}

/// The step that follows an attestation check whose result is `attestation`, with the
/// user's verification callback, if any.
pub open spec fn attestation_step<C>(attestation: Result<Claims, String>, callback: Option<C>) -> AttestationStep<C> {
    match attestation {
        Err(e) => AttestationStep::Reject(PeerCertError::VerifyFailed(e)),
        Ok(claims) => match callback {
            Some(cb) => AttestationStep::AskCallback(claims, cb),
            None => AttestationStep::Accept,
        },
    }
}

/// The verdict on a certificate whose claims the callback answered with `answer`.
pub open spec fn callback_verdict(answer: Result<(), String>) -> Result<(), PeerCertError> {
    match answer {
        Ok(()) => Ok(()),
        Err(reason) => Err(PeerCertError::RejectedByCallback(reason)),
    }
}

/// The final verdict on a peer certificate: the attestation result, then the callback's
/// answer where a callback is installed and the attestation succeeded.
pub open spec fn certificate_verdict(
    attestation: Result<Claims, String>,
    callback_answer: Option<Result<(), String>>,
) -> Result<(), PeerCertError> {
    match attestation_step(attestation, callback_answer) {
        AttestationStep::Reject(e) => Err(e),
        AttestationStep::Accept => Ok(()),
        AttestationStep::AskCallback(_, answer) => callback_verdict(answer),
    }
}

/// Decides what follows the attestation check of a peer certificate.
///
/// `attestation` is the verifier's result on the certificate (the claims, or the
/// verifier's error rendered as text); `callback` is the user's verification callback,
/// if one is installed.
pub fn after_attestation<C>(attestation: Result<Claims, String>, callback: Option<C>) -> (step: AttestationStep<C>)
    ensures
        step == attestation_step(attestation, callback),
{
    match attestation {
        Err(e) => AttestationStep::Reject(PeerCertError::VerifyFailed(e)),
        Ok(claims) => match callback {
            Some(cb) => AttestationStep::AskCallback(claims, cb),
            None => AttestationStep::Accept,
        },
    }
}

/// Turns the callback's answer on the peer's claims into the verdict on the certificate.
pub fn after_callback(answer: Result<(), String>) -> (verdict: Result<(), PeerCertError>)
    ensures
        verdict == callback_verdict(answer),
{
    match answer {
        Ok(()) => Ok(()),
        Err(reason) => Err(PeerCertError::RejectedByCallback(reason)),
    }
}

impl PeerCertError {
    /// The text that the TLS layer reports for this refusal.
    pub fn message(&self) -> (m: String)
        ensures
            m@ == (match self {
                PeerCertError::VerifyFailed(e) => "Verify failed: "@ + e@,
                PeerCertError::RejectedByCallback(r) => "Rejected by callback: "@ + r@,
            }),
    {
        match self {
            PeerCertError::VerifyFailed(e) => String::from_str("Verify failed: ").concat(e.as_str()),
            PeerCertError::RejectedByCallback(r) => String::from_str("Rejected by callback: ").concat(r.as_str()),
        }
    }
}

/// A peer certificate is accepted exactly when its attestation evidence verifies and,
/// where a callback is installed, the callback accepts the claims.
pub proof fn lemma_certificate_accepted_iff(
    attestation: Result<Claims, String>,
    callback_answer: Option<Result<(), String>>,
)
    ensures
        certificate_verdict(attestation, callback_answer) is Ok <==> (attestation is Ok && (
        callback_answer matches Some(a) ==> a is Ok)),
        attestation matches Err(e) ==> certificate_verdict(attestation, callback_answer) == Err::<(), PeerCertError>(PeerCertError::VerifyFailed(e)),
        attestation is Ok ==> (callback_answer matches Some(Err(r)) ==> certificate_verdict(
            attestation,
            callback_answer,
        ) == Err::<(), PeerCertError>(PeerCertError::RejectedByCallback(r))),
{
}

} // verus!
