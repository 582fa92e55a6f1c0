//! The core operations on encoded keys and signatures: key generation from
//! injected entropy, randomized and deterministic signing, verification and
//! derivation of the verifying key. Each reports a [`SlhDsaStatus`] on failure.
use crate::params::{
    n_of, randomizer_len_of, seed_len_of, sig_len_of, sk_len_of, vk_len_of, ParameterSetId,
};
use crate::primitive::{pk_root_of, pk_seed_in, signature_of, verifies, vk_in};
use crate::router::{
    dispatch_keypair, dispatch_sign, dispatch_verify, dispatch_vk_from_sk, sig_len, sk_len, vk_len,
};
use crate::status::SlhDsaStatus;
use vstd::prelude::*;

verus! {

/// The view of a byte-vector result.
pub open spec fn bytes_result(r: Result<Vec<u8>, SlhDsaStatus>) -> Result<Seq<u8>, SlhDsaStatus> {
    match r {
        Ok(v) => Ok(v@),
        Err(e) => Err(e),
    }
}

/// The signing key that key generation builds from `entropy`, read as
/// `SK.seed || SK.prf || PK.seed`; the key is those bytes followed by `PK.root`.
pub open spec fn keypair_signing_key(id: ParameterSetId, entropy: Seq<u8>) -> Seq<u8> {
    let n = n_of(id) as int;
    entropy + pk_root_of(id, entropy.subrange(0, n), entropy.subrange(2 * n, 3 * n))
}

/// What signing `msg` under context `ctx` with the randomizer `addrnd` gives.
pub open spec fn sign_outcome(
    id: ParameterSetId,
    sk: Seq<u8>,
    msg: Seq<u8>,
    ctx: Seq<u8>,
    addrnd: Seq<u8>,
) -> Result<Seq<u8>, SlhDsaStatus> {
    if sk.len() != sk_len_of(id) {
        Err(SlhDsaStatus::DecodeError)
    } else if addrnd.len() != randomizer_len_of(id) || ctx.len() > 255 {
        Err(SlhDsaStatus::InvalidParam)
    } else {
        Ok(signature_of(id, sk, msg, ctx, addrnd))
    }
}

/// What deterministic signing gives: the randomizer is `PK.seed`.
pub open spec fn sign_deterministic_outcome(
    id: ParameterSetId,
    sk: Seq<u8>,
    msg: Seq<u8>,
    ctx: Seq<u8>,
) -> Result<Seq<u8>, SlhDsaStatus> {
    sign_outcome(id, sk, msg, ctx, pk_seed_in(id, sk))
}

/// What verifying `sig` on `msg` under context `ctx` gives.
pub open spec fn verify_outcome(
    id: ParameterSetId,
    vk: Seq<u8>,
    msg: Seq<u8>,
    ctx: Seq<u8>,
    sig: Seq<u8>,
) -> Result<(), SlhDsaStatus> {
    if vk.len() != vk_len_of(id) || sig.len() != sig_len_of(id) {
        Err(SlhDsaStatus::DecodeError)
    } else if ctx.len() <= 255 && verifies(id, vk, msg, ctx, sig) {
        Ok(())
    } else {
        Err(SlhDsaStatus::VerifyFailed)
    }
}

/// What deriving the verifying key of `sk` gives.
pub open spec fn derive_outcome(id: ParameterSetId, sk: Seq<u8>) -> Result<Seq<u8>, SlhDsaStatus> {
    if sk.len() != sk_len_of(id) {
        Err(SlhDsaStatus::DecodeError)
    } else {
        Ok(vk_in(id, sk))
    }
}

/// Byte length of a signing key for the given parameter set.
pub fn sk_len_for(param: ParameterSetId) -> (r: Option<usize>)
    ensures
        r matches Some(len) && len == sk_len_of(param),
{
    Some(sk_len(param))
}

/// Byte length of a verifying key for the given parameter set.
pub fn vk_len_for(param: ParameterSetId) -> (r: Option<usize>)
    ensures
        r matches Some(len) && len == vk_len_of(param),
{
    Some(vk_len(param))
}

/// Byte length of a signature for the given parameter set.
pub fn sig_len_for(param: ParameterSetId) -> (r: Option<usize>)
    ensures
        r matches Some(len) && len == sig_len_of(param),
{
    Some(sig_len(param))
}

/// Byte length of the randomizer that randomized signing takes.
pub fn randomizer_len(param: ParameterSetId) -> (r: usize)
    ensures
        r == randomizer_len_of(param),
        r == n_of(param),
{
    sk_len(param) / 4
}

/// Number of random bytes that key generation takes.
pub fn seed_len(param: ParameterSetId) -> (r: usize)
    ensures
        r == seed_len_of(param),
{
    3 * (sk_len(param) / 4)
}

/// Generates a key pair from `entropy`, which supplies `SK.seed`, `SK.prf` and
/// `PK.seed` in that order. Returns the encoded signing and verifying keys.
pub fn generate_keypair(param: ParameterSetId, entropy: &[u8]) -> (r: (Vec<u8>, Vec<u8>))
    requires
        entropy@.len() == seed_len_of(param),
    ensures
        r.0@ == keypair_signing_key(param, entropy@),
        r.1@ == vk_in(param, r.0@),
        r.0@.len() == sk_len_of(param),
        r.1@.len() == vk_len_of(param),
{
    let n = randomizer_len(param);
    let sk = dispatch_keypair(
        param,
        &entropy[0..n],
        &entropy[n..2 * n],
        &entropy[2 * n..3 * n],
    );
    assert(entropy@ =~= entropy@.subrange(0, n as int) + entropy@.subrange(n as int, 2 * n as int)
        + entropy@.subrange(2 * n as int, 3 * n as int));
    let vk = match dispatch_vk_from_sk(param, sk.as_slice()) {
        Ok(vk) => vk,
        Err(_) => {
            assert(false);
            Vec::new()
        },
    };
    (sk, vk)
}

/// Derives the verifying key of an encoded signing key.
pub fn derive_verifying_key(param: ParameterSetId, signing_key: &[u8]) -> (r: Result<Vec<u8>, SlhDsaStatus>)
    ensures
        bytes_result(r) == derive_outcome(param, signing_key@),
        r matches Ok(vk) ==> vk@.len() == vk_len_of(param),
{
    match dispatch_vk_from_sk(param, signing_key) {
        Ok(vk) => Ok(vk),
        Err(_) => Err(SlhDsaStatus::DecodeError),
    }
}

/// Signs `msg` under context `ctx` with the caller-supplied randomizer
/// `addrnd`, which must be `randomizer_len(param)` bytes long.
pub fn sign_with_rng(
    param: ParameterSetId,
    signing_key: &[u8],
    addrnd: &[u8],
    msg: &[u8],
    ctx: &[u8],
) -> (r: Result<Vec<u8>, SlhDsaStatus>)
    ensures
        bytes_result(r) == sign_outcome(param, signing_key@, msg@, ctx@, addrnd@),
        r matches Ok(sig) ==> sig@.len() == sig_len_of(param),
{
    let expected_sk = sk_len(param);
    if signing_key.len() != expected_sk {
        return Err(SlhDsaStatus::DecodeError);
    }
    if addrnd.len() != randomizer_len(param) {
        return Err(SlhDsaStatus::InvalidParam);
    }
    match dispatch_sign(param, signing_key, msg, ctx, Some(addrnd)) {
        Ok(sig) => Ok(sig),
        Err(_) => Err(SlhDsaStatus::InvalidParam),
    }
}

/// Signs `msg` under context `ctx` deterministically: the same key, message
/// and context always give the same signature.
pub fn sign_deterministic(
    param: ParameterSetId,
    signing_key: &[u8],
    msg: &[u8],
    ctx: &[u8],
) -> (r: Result<Vec<u8>, SlhDsaStatus>)
    ensures
        bytes_result(r) == sign_deterministic_outcome(param, signing_key@, msg@, ctx@),
        r matches Ok(sig) ==> sig@.len() == sig_len_of(param),
{
    let expected_sk = sk_len(param);
    if signing_key.len() != expected_sk {
        return Err(SlhDsaStatus::DecodeError);
    }
    match dispatch_sign(param, signing_key, msg, ctx, None) {
        Ok(sig) => Ok(sig),
        Err(_) => Err(SlhDsaStatus::InvalidParam),
    }
}

/// Verifies `signature` on `msg` under context `ctx`.
pub fn verify_with_context(
    param: ParameterSetId,
    verifying_key: &[u8],
    msg: &[u8],
    ctx: &[u8],
    signature: &[u8],
) -> (r: Result<(), SlhDsaStatus>)
    ensures
        r == verify_outcome(param, verifying_key@, msg@, ctx@, signature@),
{
    if verifying_key.len() != vk_len(param) || signature.len() != sig_len(param) {
        return Err(SlhDsaStatus::DecodeError);
    }
    match dispatch_verify(param, verifying_key, msg, ctx, signature) {
        Ok(()) => Ok(()),
        Err(_) => Err(SlhDsaStatus::VerifyFailed),
    }
}

} // verus!
