//! The scaffolding convention for generated bindings: owned byte sequences
//! in, owned records out, with the same records and statuses as the
//! managed-buffer convention.
use crate::managed::{
    boundary_derive_outcome, boundary_sign_outcome, boundary_verify_status, payload_of,
};
pub use crate::managed::{KeyResult, Keypair, SignResult, VerifyResult};
use crate::ops::keypair_signing_key;
use crate::params::{name_of, seed_len_of, sig_len_of, sk_len_of, vk_len_of, ParameterSetId};
use crate::primitive::vk_in;
use crate::status::{status_of, SlhDsaStatus};
use vstd::prelude::*;

verus! {

/// The FIPS 205 name of the parameter set.
pub fn slh_dsa_parameter_name(param: ParameterSetId) -> (r: String)
    ensures
        r@ == name_of(param),
{
    crate::managed::slh_dsa_parameter_name(param)
}

/// Byte length of a signing key of the parameter set.
pub fn slh_dsa_signing_key_len(param: ParameterSetId) -> (r: u64)
    ensures
        r == sk_len_of(param),
{
    crate::managed::slh_dsa_signing_key_len(param)
}

/// Byte length of a verifying key of the parameter set.
pub fn slh_dsa_verifying_key_len(param: ParameterSetId) -> (r: u64)
    ensures
        r == vk_len_of(param),
{
    crate::managed::slh_dsa_verifying_key_len(param)
}

/// Byte length of a signature of the parameter set.
pub fn slh_dsa_signature_len(param: ParameterSetId) -> (r: u64)
    ensures
        r == sig_len_of(param),
{
    crate::managed::slh_dsa_signature_len(param)
}

/// Generates a key pair from `entropy`, which supplies `SK.seed`, `SK.prf`
/// and `PK.seed` in that order.
pub fn slh_dsa_keypair_generate(param: ParameterSetId, entropy: Vec<u8>) -> (r: Keypair)
    requires
        entropy@.len() == seed_len_of(param),
    ensures
        r.signing_key@ == keypair_signing_key(param, entropy@),
        r.verifying_key@ == vk_in(param, r.signing_key@),
        r.signing_key@.len() == sk_len_of(param),
        r.verifying_key@.len() == vk_len_of(param),
{
    crate::managed::slh_dsa_keypair_generate(param, entropy.as_slice())
}

/// Signs with the randomizer `addrnd` (`randomizer_len(param)` bytes).
pub fn slh_dsa_sign(
    param: ParameterSetId,
    signing_key: Vec<u8>,
    msg: Vec<u8>,
    ctx: Vec<u8>,
    addrnd: Vec<u8>,
) -> (r: SignResult)
    ensures
        r.status == status_of(boundary_sign_outcome(param, signing_key@, msg@, ctx@, Some(addrnd@))),
        r.signature@ == payload_of(boundary_sign_outcome(param, signing_key@, msg@, ctx@, Some(addrnd@))),
{
    crate::managed::slh_dsa_sign(
        param,
        signing_key.as_slice(),
        msg.as_slice(),
        ctx.as_slice(),
        addrnd.as_slice(),
    )
}

/// Signs deterministically.
pub fn slh_dsa_sign_deterministic(
    param: ParameterSetId,
    signing_key: Vec<u8>,
    msg: Vec<u8>,
    ctx: Vec<u8>,
) -> (r: SignResult)
    ensures
        r.status == status_of(boundary_sign_outcome(param, signing_key@, msg@, ctx@, None)),
        r.signature@ == payload_of(boundary_sign_outcome(param, signing_key@, msg@, ctx@, None)),
{
    crate::managed::slh_dsa_sign_deterministic(
        param,
        signing_key.as_slice(),
        msg.as_slice(),
        ctx.as_slice(),
    )
}

/// The verifying key of a signing key.
pub fn slh_dsa_verifying_key_from_signing_key(param: ParameterSetId, signing_key: Vec<u8>) -> (r: KeyResult)
    ensures
        r.status == status_of(boundary_derive_outcome(param, signing_key@)),
        r.verifying_key@ == payload_of(boundary_derive_outcome(param, signing_key@)),
{
    crate::managed::slh_dsa_verifying_key_from_signing_key(param, signing_key.as_slice())
}

/// Verifies a signature.
pub fn slh_dsa_verify(
    param: ParameterSetId,
    verifying_key: Vec<u8>,
    msg: Vec<u8>,
    ctx: Vec<u8>,
    signature: Vec<u8>,
) -> (r: VerifyResult)
    ensures
        r.status == boundary_verify_status(param, verifying_key@, msg@, ctx@, signature@),
        r.valid == (r.status == SlhDsaStatus::Success),
{
    crate::managed::slh_dsa_verify(
        param,
        verifying_key.as_slice(),
        msg.as_slice(),
        ctx.as_slice(),
        signature.as_slice(),
    )
}

} // verus!
