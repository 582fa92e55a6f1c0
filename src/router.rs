//! The dispatch from a runtime [`ParameterSetId`] to the one `slh-dsa`
//! parameter-set type that implements it. Each operation routes here, and
//! nowhere else: every boundary of the library shares these matches.
use crate::params::{n_of, sig_len_of, sk_len_of, vk_len_of, ParameterSetId};
use crate::primitive::{
    keygen_from_seeds, pk_root_of, randomizer_used, sign_bytes, signature_len,
    signature_of, signing_key_len, verifies, verify_bytes, verifying_key_len,
    verifying_key_bytes, vk_in,
};
use slh_dsa::signature::Error;
use vstd::prelude::*;

verus! {

/// Byte length of a signing key of the parameter set.
pub fn sk_len(id: ParameterSetId) -> (r: usize)
    ensures
        r == sk_len_of(id),
{
    match id {
        ParameterSetId::Shake128s => signing_key_len::<slh_dsa::Shake128s>(),
        ParameterSetId::Shake128f => signing_key_len::<slh_dsa::Shake128f>(),
        ParameterSetId::Shake192s => signing_key_len::<slh_dsa::Shake192s>(),
        ParameterSetId::Shake192f => signing_key_len::<slh_dsa::Shake192f>(),
        ParameterSetId::Shake256s => signing_key_len::<slh_dsa::Shake256s>(),
        ParameterSetId::Shake256f => signing_key_len::<slh_dsa::Shake256f>(),
        ParameterSetId::Sha2_128s => signing_key_len::<slh_dsa::Sha2_128s>(),
        ParameterSetId::Sha2_128f => signing_key_len::<slh_dsa::Sha2_128f>(),
        ParameterSetId::Sha2_192s => signing_key_len::<slh_dsa::Sha2_192s>(),
        ParameterSetId::Sha2_192f => signing_key_len::<slh_dsa::Sha2_192f>(),
        ParameterSetId::Sha2_256s => signing_key_len::<slh_dsa::Sha2_256s>(),
        ParameterSetId::Sha2_256f => signing_key_len::<slh_dsa::Sha2_256f>(),
    }
}

/// Byte length of a verifying key of the parameter set.
pub fn vk_len(id: ParameterSetId) -> (r: usize)
    ensures
        r == vk_len_of(id),
{
    match id {
        ParameterSetId::Shake128s => verifying_key_len::<slh_dsa::Shake128s>(),
        ParameterSetId::Shake128f => verifying_key_len::<slh_dsa::Shake128f>(),
        ParameterSetId::Shake192s => verifying_key_len::<slh_dsa::Shake192s>(),
        ParameterSetId::Shake192f => verifying_key_len::<slh_dsa::Shake192f>(),
        ParameterSetId::Shake256s => verifying_key_len::<slh_dsa::Shake256s>(),
        ParameterSetId::Shake256f => verifying_key_len::<slh_dsa::Shake256f>(),
        ParameterSetId::Sha2_128s => verifying_key_len::<slh_dsa::Sha2_128s>(),
        ParameterSetId::Sha2_128f => verifying_key_len::<slh_dsa::Sha2_128f>(),
        ParameterSetId::Sha2_192s => verifying_key_len::<slh_dsa::Sha2_192s>(),
        ParameterSetId::Sha2_192f => verifying_key_len::<slh_dsa::Sha2_192f>(),
        ParameterSetId::Sha2_256s => verifying_key_len::<slh_dsa::Sha2_256s>(),
        ParameterSetId::Sha2_256f => verifying_key_len::<slh_dsa::Sha2_256f>(),
    }
}

/// Byte length of a signature of the parameter set.
pub fn sig_len(id: ParameterSetId) -> (r: usize)
    ensures
        r == sig_len_of(id),
{
    match id {
        ParameterSetId::Shake128s => signature_len::<slh_dsa::Shake128s>(),
        ParameterSetId::Shake128f => signature_len::<slh_dsa::Shake128f>(),
        ParameterSetId::Shake192s => signature_len::<slh_dsa::Shake192s>(),
        ParameterSetId::Shake192f => signature_len::<slh_dsa::Shake192f>(),
        ParameterSetId::Shake256s => signature_len::<slh_dsa::Shake256s>(),
        ParameterSetId::Shake256f => signature_len::<slh_dsa::Shake256f>(),
        ParameterSetId::Sha2_128s => signature_len::<slh_dsa::Sha2_128s>(),
        ParameterSetId::Sha2_128f => signature_len::<slh_dsa::Sha2_128f>(),
        ParameterSetId::Sha2_192s => signature_len::<slh_dsa::Sha2_192s>(),
        ParameterSetId::Sha2_192f => signature_len::<slh_dsa::Sha2_192f>(),
        ParameterSetId::Sha2_256s => signature_len::<slh_dsa::Sha2_256s>(),
        ParameterSetId::Sha2_256f => signature_len::<slh_dsa::Sha2_256f>(),
    }
}

/// The encoded signing key that the three seeds of `n` bytes each determine.
pub fn dispatch_keypair(id: ParameterSetId, sk_seed: &[u8], sk_prf: &[u8], pk_seed: &[u8]) -> (r: Vec<u8>)
    requires
        sk_seed@.len() == n_of(id),
        sk_prf@.len() == n_of(id),
        pk_seed@.len() == n_of(id),
    ensures
        r@ == sk_seed@ + sk_prf@ + pk_seed@ + pk_root_of(id, sk_seed@, pk_seed@),
        r@.len() == sk_len_of(id),
{
    match id {
        ParameterSetId::Shake128s => keygen_from_seeds::<slh_dsa::Shake128s>(sk_seed, sk_prf, pk_seed),
        ParameterSetId::Shake128f => keygen_from_seeds::<slh_dsa::Shake128f>(sk_seed, sk_prf, pk_seed),
        ParameterSetId::Shake192s => keygen_from_seeds::<slh_dsa::Shake192s>(sk_seed, sk_prf, pk_seed),
        ParameterSetId::Shake192f => keygen_from_seeds::<slh_dsa::Shake192f>(sk_seed, sk_prf, pk_seed),
        ParameterSetId::Shake256s => keygen_from_seeds::<slh_dsa::Shake256s>(sk_seed, sk_prf, pk_seed),
        ParameterSetId::Shake256f => keygen_from_seeds::<slh_dsa::Shake256f>(sk_seed, sk_prf, pk_seed),
        ParameterSetId::Sha2_128s => keygen_from_seeds::<slh_dsa::Sha2_128s>(sk_seed, sk_prf, pk_seed),
        ParameterSetId::Sha2_128f => keygen_from_seeds::<slh_dsa::Sha2_128f>(sk_seed, sk_prf, pk_seed),
        ParameterSetId::Sha2_192s => keygen_from_seeds::<slh_dsa::Sha2_192s>(sk_seed, sk_prf, pk_seed),
        ParameterSetId::Sha2_192f => keygen_from_seeds::<slh_dsa::Sha2_192f>(sk_seed, sk_prf, pk_seed),
        ParameterSetId::Sha2_256s => keygen_from_seeds::<slh_dsa::Sha2_256s>(sk_seed, sk_prf, pk_seed),
        ParameterSetId::Sha2_256f => keygen_from_seeds::<slh_dsa::Sha2_256f>(sk_seed, sk_prf, pk_seed),
    }
}

/// The verifying key inside an encoded signing key.
pub fn dispatch_vk_from_sk(id: ParameterSetId, sk: &[u8]) -> (r: Result<Vec<u8>, Error>)
    ensures
        r is Ok <==> sk@.len() == sk_len_of(id),
        r matches Ok(vk) ==> vk@ == vk_in(id, sk@),
{
    match id {
        ParameterSetId::Shake128s => verifying_key_bytes::<slh_dsa::Shake128s>(sk),
        ParameterSetId::Shake128f => verifying_key_bytes::<slh_dsa::Shake128f>(sk),
        ParameterSetId::Shake192s => verifying_key_bytes::<slh_dsa::Shake192s>(sk),
        ParameterSetId::Shake192f => verifying_key_bytes::<slh_dsa::Shake192f>(sk),
        ParameterSetId::Shake256s => verifying_key_bytes::<slh_dsa::Shake256s>(sk),
        ParameterSetId::Shake256f => verifying_key_bytes::<slh_dsa::Shake256f>(sk),
        ParameterSetId::Sha2_128s => verifying_key_bytes::<slh_dsa::Sha2_128s>(sk),
        ParameterSetId::Sha2_128f => verifying_key_bytes::<slh_dsa::Sha2_128f>(sk),
        ParameterSetId::Sha2_192s => verifying_key_bytes::<slh_dsa::Sha2_192s>(sk),
        ParameterSetId::Sha2_192f => verifying_key_bytes::<slh_dsa::Sha2_192f>(sk),
        ParameterSetId::Sha2_256s => verifying_key_bytes::<slh_dsa::Sha2_256s>(sk),
        ParameterSetId::Sha2_256f => verifying_key_bytes::<slh_dsa::Sha2_256f>(sk),
    }
}

/// Signs `msg` under context `ctx`, with the randomizer `addrnd` or, without
/// one, deterministically.
pub fn dispatch_sign(id: ParameterSetId, sk: &[u8], msg: &[u8], ctx: &[u8], addrnd: Option<&[u8]>) -> (r: Result<Vec<u8>, Error>)
    requires
        addrnd matches Some(a) ==> a@.len() == n_of(id),
    ensures
        r is Ok <==> (sk@.len() == sk_len_of(id) && ctx@.len() <= 255),
        r matches Ok(sig) ==> sig@.len() == sig_len_of(id),
        r matches Ok(sig) ==> sig@ == signature_of(id, sk@, msg@, ctx@, randomizer_used(id, sk@, addrnd)),
{
    match id {
        ParameterSetId::Shake128s => sign_bytes::<slh_dsa::Shake128s>(sk, msg, ctx, addrnd),
        ParameterSetId::Shake128f => sign_bytes::<slh_dsa::Shake128f>(sk, msg, ctx, addrnd),
        ParameterSetId::Shake192s => sign_bytes::<slh_dsa::Shake192s>(sk, msg, ctx, addrnd),
        ParameterSetId::Shake192f => sign_bytes::<slh_dsa::Shake192f>(sk, msg, ctx, addrnd),
        ParameterSetId::Shake256s => sign_bytes::<slh_dsa::Shake256s>(sk, msg, ctx, addrnd),
        ParameterSetId::Shake256f => sign_bytes::<slh_dsa::Shake256f>(sk, msg, ctx, addrnd),
        ParameterSetId::Sha2_128s => sign_bytes::<slh_dsa::Sha2_128s>(sk, msg, ctx, addrnd),
        ParameterSetId::Sha2_128f => sign_bytes::<slh_dsa::Sha2_128f>(sk, msg, ctx, addrnd),
        ParameterSetId::Sha2_192s => sign_bytes::<slh_dsa::Sha2_192s>(sk, msg, ctx, addrnd),
        ParameterSetId::Sha2_192f => sign_bytes::<slh_dsa::Sha2_192f>(sk, msg, ctx, addrnd),
        ParameterSetId::Sha2_256s => sign_bytes::<slh_dsa::Sha2_256s>(sk, msg, ctx, addrnd),
        ParameterSetId::Sha2_256f => sign_bytes::<slh_dsa::Sha2_256f>(sk, msg, ctx, addrnd),
    }
}

/// Verifies `sig` on `msg` under context `ctx`.
pub fn dispatch_verify(id: ParameterSetId, vk: &[u8], msg: &[u8], ctx: &[u8], sig: &[u8]) -> (r: Result<(), Error>)
    ensures
        r is Ok <==> (vk@.len() == vk_len_of(id) && sig@.len() == sig_len_of(id)
            && ctx@.len() <= 255 && verifies(id, vk@, msg@, ctx@, sig@)),
{
    match id {
        ParameterSetId::Shake128s => verify_bytes::<slh_dsa::Shake128s>(vk, msg, ctx, sig),
        ParameterSetId::Shake128f => verify_bytes::<slh_dsa::Shake128f>(vk, msg, ctx, sig),
        ParameterSetId::Shake192s => verify_bytes::<slh_dsa::Shake192s>(vk, msg, ctx, sig),
        ParameterSetId::Shake192f => verify_bytes::<slh_dsa::Shake192f>(vk, msg, ctx, sig),
        ParameterSetId::Shake256s => verify_bytes::<slh_dsa::Shake256s>(vk, msg, ctx, sig),
        ParameterSetId::Shake256f => verify_bytes::<slh_dsa::Shake256f>(vk, msg, ctx, sig),
        ParameterSetId::Sha2_128s => verify_bytes::<slh_dsa::Sha2_128s>(vk, msg, ctx, sig),
        ParameterSetId::Sha2_128f => verify_bytes::<slh_dsa::Sha2_128f>(vk, msg, ctx, sig),
        ParameterSetId::Sha2_192s => verify_bytes::<slh_dsa::Sha2_192s>(vk, msg, ctx, sig),
        ParameterSetId::Sha2_192f => verify_bytes::<slh_dsa::Sha2_192f>(vk, msg, ctx, sig),
        ParameterSetId::Sha2_256s => verify_bytes::<slh_dsa::Sha2_256s>(vk, msg, ctx, sig),
        ParameterSetId::Sha2_256f => verify_bytes::<slh_dsa::Sha2_256f>(vk, msg, ctx, sig),
    }
}

} // verus!
