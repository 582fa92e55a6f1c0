//! The managed-buffer convention: borrowed byte buffers in, records that the
//! callee allocates out. Every result carries a [`SlhDsaStatus`]; a failed
//! call returns an empty payload.
use crate::ops::{
    derive_outcome, derive_verifying_key, generate_keypair, keypair_signing_key, sign_deterministic,
    sign_deterministic_outcome, sign_outcome, sign_with_rng, verify_outcome, verify_with_context,
};
use crate::params::{name_of, seed_len_of, sig_len_of, sk_len_of, vk_len_of, ParameterSetId};
use crate::primitive::vk_in;
use crate::router::{sig_len, sk_len, vk_len};
use crate::status::{status_of, SlhDsaStatus};
use vstd::prelude::*;

verus! {

/// An encoded signing key and the verifying key that belongs to it.
#[derive(Clone, Debug)]
pub struct Keypair {
    pub signing_key: Vec<u8>,
    pub verifying_key: Vec<u8>,
}

/// The status of a signing call and, on success, the signature.
#[derive(Clone, Debug)]
pub struct SignResult {
    pub status: SlhDsaStatus,
    pub signature: Vec<u8>,
}

/// The status of a verification and whether the signature was accepted.
#[derive(Clone, Copy, Debug, PartialEq, Eq, Structural)]
pub struct VerifyResult {
    pub status: SlhDsaStatus,
    pub valid: bool,
}

/// The status of a verifying-key derivation and, on success, the key.
#[derive(Clone, Debug)]
pub struct KeyResult {
    pub status: SlhDsaStatus,
    pub verifying_key: Vec<u8>,
}

/// The bytes a record carries for an outcome: none on failure.
pub open spec fn payload_of(outcome: Result<Seq<u8>, SlhDsaStatus>) -> Seq<u8> {
    match outcome {
        Ok(bytes) => bytes,
        Err(_) => Seq::empty(),
    }
}

/// Signing at a buffer boundary: the signing key's length is checked first;
/// with the randomizer `addrnd`, or deterministic without one.
pub open spec fn boundary_sign_outcome(
    param: ParameterSetId,
    sk: Seq<u8>,
    msg: Seq<u8>,
    ctx: Seq<u8>,
    addrnd: Option<Seq<u8>>,
) -> Result<Seq<u8>, SlhDsaStatus> {
    if sk.len() != sk_len_of(param) {
        Err(SlhDsaStatus::InvalidLength)
    } else {
        match addrnd {
            Some(a) => sign_outcome(param, sk, msg, ctx, a),
            None => sign_deterministic_outcome(param, sk, msg, ctx),
        }
    }
}

/// Verifying-key derivation at a buffer boundary.
pub open spec fn boundary_derive_outcome(param: ParameterSetId, sk: Seq<u8>) -> Result<
    Seq<u8>,
    SlhDsaStatus,
> {
    if sk.len() != sk_len_of(param) {
        Err(SlhDsaStatus::InvalidLength)
    } else {
        derive_outcome(param, sk)
    }
}

/// Verification at a buffer boundary: both lengths are checked first.
pub open spec fn boundary_verify_status(
    param: ParameterSetId,
    vk: Seq<u8>,
    msg: Seq<u8>,
    ctx: Seq<u8>,
    sig: Seq<u8>,
) -> SlhDsaStatus {
    if vk.len() != vk_len_of(param) || sig.len() != sig_len_of(param) {
        SlhDsaStatus::InvalidLength
    } else {
        status_of(verify_outcome(param, vk, msg, ctx, sig))
    }
}

/// The record of a signing outcome.
fn sign_record(outcome: Result<Vec<u8>, SlhDsaStatus>) -> (r: SignResult)
    ensures
        r.status == status_of(outcome),
        r.signature@ == payload_of(crate::ops::bytes_result(outcome)),
{
    match outcome {
        Ok(signature) => SignResult { status: SlhDsaStatus::Success, signature },
        Err(status) => SignResult { status, signature: Vec::new() },
    }
}

/// The FIPS 205 name of the parameter set.
pub fn slh_dsa_parameter_name(param: ParameterSetId) -> (r: String)
    ensures
        r@ == name_of(param),
{
    param.name().to_owned()
}

/// Byte length of a signing key of the parameter set.
pub fn slh_dsa_signing_key_len(param: ParameterSetId) -> (r: u64)
    ensures
        r == sk_len_of(param),
{
    sk_len(param) as u64
}

/// Byte length of a verifying key of the parameter set.
pub fn slh_dsa_verifying_key_len(param: ParameterSetId) -> (r: u64)
    ensures
        r == vk_len_of(param),
{
    vk_len(param) as u64
}

/// Byte length of a signature of the parameter set.
pub fn slh_dsa_signature_len(param: ParameterSetId) -> (r: u64)
    ensures
        r == sig_len_of(param),
{
    sig_len(param) as u64
}

/// Generates a key pair from `entropy`, which supplies `SK.seed`, `SK.prf`
/// and `PK.seed` in that order.
pub fn slh_dsa_keypair_generate(param: ParameterSetId, entropy: &[u8]) -> (r: Keypair)
    requires
        entropy@.len() == seed_len_of(param),
    ensures
        r.signing_key@ == keypair_signing_key(param, entropy@),
        r.verifying_key@ == vk_in(param, r.signing_key@),
        r.signing_key@.len() == sk_len_of(param),
        r.verifying_key@.len() == vk_len_of(param),
{
    let (signing_key, verifying_key) = generate_keypair(param, entropy);
    Keypair { signing_key, verifying_key }
}

/// Signs with the randomizer `addrnd` (`randomizer_len(param)` bytes).
pub fn slh_dsa_sign(
    param: ParameterSetId,
    signing_key: &[u8],
    msg: &[u8],
    ctx: &[u8],
    addrnd: &[u8],
) -> (r: SignResult)
    ensures
        r.status == status_of(boundary_sign_outcome(param, signing_key@, msg@, ctx@, Some(addrnd@))),
        r.signature@ == payload_of(boundary_sign_outcome(param, signing_key@, msg@, ctx@, Some(addrnd@))),
{
    if signing_key.len() != sk_len(param) {
        return SignResult { status: SlhDsaStatus::InvalidLength, signature: Vec::new() };
    }
    sign_record(sign_with_rng(param, signing_key, addrnd, msg, ctx))
}

/// Signs deterministically.
pub fn slh_dsa_sign_deterministic(
    param: ParameterSetId,
    signing_key: &[u8],
    msg: &[u8],
    ctx: &[u8],
) -> (r: SignResult)
    ensures
        r.status == status_of(boundary_sign_outcome(param, signing_key@, msg@, ctx@, None)),
        r.signature@ == payload_of(boundary_sign_outcome(param, signing_key@, msg@, ctx@, None)),
{
    if signing_key.len() != sk_len(param) {
        return SignResult { status: SlhDsaStatus::InvalidLength, signature: Vec::new() };
    }
    sign_record(sign_deterministic(param, signing_key, msg, ctx))
}

/// The verifying key of a signing key.
pub fn slh_dsa_verifying_key_from_signing_key(param: ParameterSetId, signing_key: &[u8]) -> (r: KeyResult)
    ensures
        r.status == status_of(boundary_derive_outcome(param, signing_key@)),
        r.verifying_key@ == payload_of(boundary_derive_outcome(param, signing_key@)),
{
    if signing_key.len() != sk_len(param) {
        return KeyResult { status: SlhDsaStatus::InvalidLength, verifying_key: Vec::new() };
    }
    match derive_verifying_key(param, signing_key) {
        Ok(verifying_key) => KeyResult { status: SlhDsaStatus::Success, verifying_key },
        Err(status) => KeyResult { status, verifying_key: Vec::new() },
    }
}

/// Verifies a signature.
pub fn slh_dsa_verify(
    param: ParameterSetId,
    verifying_key: &[u8],
    msg: &[u8],
    ctx: &[u8],
    signature: &[u8],
) -> (r: VerifyResult)
    ensures
        r.status == boundary_verify_status(param, verifying_key@, msg@, ctx@, signature@),
        r.valid == (r.status == SlhDsaStatus::Success),
{
    if verifying_key.len() != vk_len(param) || signature.len() != sig_len(param) {
        return VerifyResult { status: SlhDsaStatus::InvalidLength, valid: false };
    }
    match verify_with_context(param, verifying_key, msg, ctx, signature) {
        Ok(()) => VerifyResult { status: SlhDsaStatus::Success, valid: true },
        Err(status) => VerifyResult { status, valid: false },
    }
}

} // verus!
