//! Checking an owner's signature over a message.
//!
//! The cryptography is schnorrkel's. What it decides is given a name here,
//! one per question asked of it, so that the order in which the questions are
//! asked, and the error each answer leads to, can be stated and proved.

use vstd::prelude::*;

use crate::types::SessionError;

verus! {

/// Whether schnorrkel reads `bytes` as a signature.
pub uninterp spec fn signature_decodes(bytes: Seq<u8>) -> bool;

/// Whether schnorrkel reads `bytes` as a public key.
pub uninterp spec fn public_key_decodes(bytes: Seq<u8>) -> bool;

/// Whether schnorrkel accepts `signature` as made over `message` in the
/// signing context `context` by the holder of `public_key`.
pub uninterp spec fn signature_matches(
    public_key: Seq<u8>,
    context: Seq<u8>,
    message: Seq<u8>,
    signature: Seq<u8>,
) -> bool;

/// Calls `schnorrkel::Signature::from_bytes` and reports whether it
/// succeeded. Trusted: the answer is a function of the bytes alone, and the
/// function rejects anything but 64 bytes with the top bit of the last one
/// set.
#[verifier::external_body]
fn signature_from_bytes(bytes: &[u8]) -> (ok: bool)
    ensures
        ok == signature_decodes(bytes@),
        ok ==> bytes@.len() == 64 && bytes@[63] >= 128,
{
    schnorrkel::Signature::from_bytes(bytes).is_ok()
}

/// Calls `schnorrkel::PublicKey::from_bytes` and reports whether it
/// succeeded. Trusted: the answer is a function of the bytes alone, and the
/// function rejects anything but 32 bytes.
#[verifier::external_body]
fn public_key_from_bytes(bytes: &[u8]) -> (ok: bool)
    ensures
        ok == public_key_decodes(bytes@),
        ok ==> bytes@.len() == 32,
{
    schnorrkel::PublicKey::from_bytes(bytes).is_ok()
}

/// Calls `schnorrkel::PublicKey::verify_simple` on the key and the signature
/// that the bytes decode to, and reports whether it succeeded. Trusted: the
/// answer is a function of the four byte strings alone. The lengths are
/// bounded because the transcript underneath writes each as 32 bits and
/// panics on more.
#[verifier::external_body]
fn verify_simple(public_key: &[u8], context: &[u8], message: &[u8], signature: &[u8]) -> (ok: bool)
    requires
        public_key_decodes(public_key@),
        signature_decodes(signature@),
        context@.len() <= u32::MAX,
        message@.len() <= u32::MAX,
    ensures
        ok == signature_matches(public_key@, context@, message@, signature@),
{
    match (schnorrkel::PublicKey::from_bytes(public_key), schnorrkel::Signature::from_bytes(signature)) {
        (Ok(key), Ok(sig)) => key.verify_simple(context, message, &sig).is_ok(),
        _ => false,
    }
}

/// The domain-separation context under which sessions are signed: the ASCII
/// bytes of `substrate`.
pub open spec fn signing_context() -> Seq<u8> {
    seq![0x73u8, 0x75u8, 0x62u8, 0x73u8, 0x74u8, 0x72u8, 0x61u8, 0x74u8, 0x65u8]
}

/// What the verifier's three answers come to.
///
/// The signature is decoded first, then the key, and only then is the
/// signature checked, so a malformed signature is reported even where the
/// key is malformed too, and a mismatch only where both are well formed.
pub open spec fn verdict(signature_decodes: bool, public_key_decodes: bool, signature_matches: bool) -> Result<
    (),
    SessionError,
> {
    if !signature_decodes {
        Err(SessionError::BadSignature)
    } else if !public_key_decodes {
        Err(SessionError::BadPublicKey)
    } else if !signature_matches {
        Err(SessionError::VerificationFailed)
    } else {
        Ok(())
    }
}

/// Turns the verifier's three answers into the outcome of the check.
pub fn verification_verdict(
    signature_decodes: bool,
    public_key_decodes: bool,
    signature_matches: bool,
) -> (outcome: Result<(), SessionError>)
    ensures
        outcome == verdict(signature_decodes, public_key_decodes, signature_matches),
{
    if !signature_decodes {
        Err(SessionError::BadSignature)
    } else if !public_key_decodes {
        Err(SessionError::BadPublicKey)
    } else if !signature_matches {
        Err(SessionError::VerificationFailed)
    } else {
        Ok(())
    }
}

/// What checking `signature` over `message` against `pubkey` comes to.
pub open spec fn verification_outcome(signature: Seq<u8>, message: Seq<u8>, pubkey: Seq<u8>) -> Result<
    (),
    SessionError,
> {
    verdict(
        signature_decodes(signature),
        public_key_decodes(pubkey),
        signature_matches(pubkey, signing_context(), message, signature),
    )
}

/// Checks that `signature` was made over `message` by the holder of `pubkey`.
///
/// The key is decoded only where the signature is well formed, and the
/// signature checked only where the key is too.
pub fn verify(signature: &[u8], message: &[u8], pubkey: &[u8]) -> (outcome: Result<(), SessionError>)
    requires
        message@.len() <= u32::MAX,
    ensures
        outcome == verification_outcome(signature@, message@, pubkey@),
{
    let context: [u8; 9] = [0x73, 0x75, 0x62, 0x73, 0x74, 0x72, 0x61, 0x74, 0x65];
    assert(context@ =~= signing_context());
    let signature_ok = signature_from_bytes(signature);
    let public_key_ok = signature_ok && public_key_from_bytes(pubkey);
    let matches = public_key_ok && verify_simple(pubkey, context.as_slice(), message, signature);
    verification_verdict(signature_ok, public_key_ok, matches)
}

} // verus!
