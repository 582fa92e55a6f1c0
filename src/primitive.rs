//! The SLH-DSA primitive of the `slh-dsa` crate, as this library relies on it.
//!
//! Each parameter set of `slh-dsa` is a type; [`Variant`] ties each of them
//! to its [`ParameterSetId`], so that the contracts of the generic calls below
//! can speak of the parameter set they run. The cryptographic results
//! themselves are named, not described: [`pk_root_of`], [`signature_of`] and
//! [`verifies`] stand for what FIPS 205 computes.
use crate::params::{n_of, sig_len_of, sk_len_of, vk_len_of, ParameterSetId};
use hybrid_array::typenum::{Unsigned, B0, B1, UInt, UTerm};
use slh_dsa::signature::Error;
use slh_dsa::{ParameterSet, Sha2L1, Sha2L35, Shake, Signature, SigningKey, VerifyingKey};
use vstd::prelude::*;

verus! {

#[verifier::external_type_specification]
#[verifier::external_body]
#[verifier::reject_recursive_types(U)]
#[verifier::reject_recursive_types(B)]
pub struct ExUInt<U, B>(UInt<U, B>);

#[verifier::external_type_specification]
#[verifier::external_body]
pub struct ExUTerm(UTerm);

#[verifier::external_type_specification]
#[verifier::external_body]
pub struct ExB0(B0);

#[verifier::external_type_specification]
#[verifier::external_body]
pub struct ExB1(B1);

#[verifier::external_type_specification]
#[verifier::external_body]
#[verifier::reject_recursive_types(N)]
#[verifier::reject_recursive_types(M)]
pub struct ExShake<N, M>(Shake<N, M>);

#[verifier::external_type_specification]
#[verifier::external_body]
#[verifier::reject_recursive_types(N)]
#[verifier::reject_recursive_types(M)]
pub struct ExSha2L1<N, M>(Sha2L1<N, M>);

#[verifier::external_type_specification]
#[verifier::external_body]
#[verifier::reject_recursive_types(N)]
#[verifier::reject_recursive_types(M)]
pub struct ExSha2L35<N, M>(Sha2L35<N, M>);

#[verifier::external_type_specification]
#[verifier::external_body]
pub struct ExError(Error);

/// A parameter-set type of `slh-dsa`, seen as the [`ParameterSetId`] it implements.
pub trait Variant {
    spec fn id() -> ParameterSetId;
}

impl Variant for slh_dsa::Shake128s {
    open spec fn id() -> ParameterSetId {
        ParameterSetId::Shake128s
    }
}

impl Variant for slh_dsa::Shake128f {
    open spec fn id() -> ParameterSetId {
        ParameterSetId::Shake128f
    }
}

impl Variant for slh_dsa::Shake192s {
    open spec fn id() -> ParameterSetId {
        ParameterSetId::Shake192s
    }
}

impl Variant for slh_dsa::Shake192f {
    open spec fn id() -> ParameterSetId {
        ParameterSetId::Shake192f
    }
}

impl Variant for slh_dsa::Shake256s {
    open spec fn id() -> ParameterSetId {
        ParameterSetId::Shake256s
    }
}

impl Variant for slh_dsa::Shake256f {
    open spec fn id() -> ParameterSetId {
        ParameterSetId::Shake256f
    }
}

impl Variant for slh_dsa::Sha2_128s {
    open spec fn id() -> ParameterSetId {
        ParameterSetId::Sha2_128s
    }
}

impl Variant for slh_dsa::Sha2_128f {
    open spec fn id() -> ParameterSetId {
        ParameterSetId::Sha2_128f
    }
}

impl Variant for slh_dsa::Sha2_192s {
    open spec fn id() -> ParameterSetId {
        ParameterSetId::Sha2_192s
    }
}

impl Variant for slh_dsa::Sha2_192f {
    open spec fn id() -> ParameterSetId {
        ParameterSetId::Sha2_192f
    }
}

impl Variant for slh_dsa::Sha2_256s {
    open spec fn id() -> ParameterSetId {
        ParameterSetId::Sha2_256s
    }
}

impl Variant for slh_dsa::Sha2_256f {
    open spec fn id() -> ParameterSetId {
        ParameterSetId::Sha2_256f
    }
}

/// `PK.root`, the root of the top XMSS tree, for the given `SK.seed` and `PK.seed`.
pub uninterp spec fn pk_root_of(id: ParameterSetId, sk_seed: Seq<u8>, pk_seed: Seq<u8>) -> Seq<u8>;

/// The encoded signature that `slh-sign` with context `ctx` and randomizer
/// `addrnd` produces under the signing key `sk`.
pub uninterp spec fn signature_of(
    id: ParameterSetId,
    sk: Seq<u8>,
    msg: Seq<u8>,
    ctx: Seq<u8>,
    addrnd: Seq<u8>,
) -> Seq<u8>;

/// Whether `slh-verify` accepts `sig` on `msg` with context `ctx` under the verifying key `vk`.
pub uninterp spec fn verifies(
    id: ParameterSetId,
    vk: Seq<u8>,
    msg: Seq<u8>,
    ctx: Seq<u8>,
    sig: Seq<u8>,
) -> bool;

/// `PK.seed` inside an encoded signing key.
pub open spec fn pk_seed_in(id: ParameterSetId, sk: Seq<u8>) -> Seq<u8> {
    sk.subrange(2 * n_of(id) as int, 3 * n_of(id) as int)
}

/// The verifying key `PK.seed || PK.root` inside an encoded signing key.
pub open spec fn vk_in(id: ParameterSetId, sk: Seq<u8>) -> Seq<u8> {
    sk.subrange(2 * n_of(id) as int, 4 * n_of(id) as int)
}

/// The randomizer that signing uses: the one given, else `PK.seed`.
pub open spec fn randomizer_used(id: ParameterSetId, sk: Seq<u8>, addrnd: Option<&[u8]>) -> Seq<u8> {
    match addrnd {
        Some(a) => a@,
        None => pk_seed_in(id, sk),
    }
}

/// Relies on `<P as SigningKeyLen>::SkLen`: the byte length of a signing key of `P`.
#[verifier::external_body]
pub(crate) fn signing_key_len<P: ParameterSet + Variant>() -> (r: usize)
    ensures
        r == sk_len_of(P::id()),
{
    <P::SkLen as Unsigned>::USIZE
}

/// Relies on `<P as VerifyingKeyLen>::VkLen`: the byte length of a verifying key of `P`.
#[verifier::external_body]
pub(crate) fn verifying_key_len<P: ParameterSet + Variant>() -> (r: usize)
    ensures
        r == vk_len_of(P::id()),
{
    <P::VkLen as Unsigned>::USIZE
}

/// Relies on `<P as SignatureLen>::SigLen`: the byte length of a signature of `P`.
#[verifier::external_body]
pub(crate) fn signature_len<P: ParameterSet + Variant>() -> (r: usize)
    ensures
        r == sig_len_of(P::id()),
{
    <P::SigLen as Unsigned>::USIZE
}

/// Relies on `SigningKey::slh_keygen_internal`, which builds the key from the
/// three seeds (each `n` bytes, else it panics), and on `SigningKey::to_bytes`,
/// which writes it as `SK.seed || SK.prf || PK.seed || PK.root`.
/// `SigningKey::new` is this same construction after drawing the three seeds
/// from its random source, in this order; here the caller supplies them.
#[verifier::external_body]
pub(crate) fn keygen_from_seeds<P: ParameterSet + Variant>(
    sk_seed: &[u8],
    sk_prf: &[u8],
    pk_seed: &[u8],
) -> (r: Vec<u8>)
    requires
        sk_seed@.len() == n_of(P::id()),
        sk_prf@.len() == n_of(P::id()),
        pk_seed@.len() == n_of(P::id()),
    ensures
        r@ == sk_seed@ + sk_prf@ + pk_seed@ + pk_root_of(P::id(), sk_seed@, pk_seed@),
        r@.len() == sk_len_of(P::id()),
{
    SigningKey::<P>::slh_keygen_internal(sk_seed, sk_prf, pk_seed).to_bytes().to_vec()
}

/// Relies on `SigningKey::try_from`, which accepts exactly the slices of
/// `SkLen` bytes and takes their last `2n` bytes as the verifying key, and on
/// `VerifyingKey::to_bytes`, which writes those bytes back.
#[verifier::external_body]
pub(crate) fn verifying_key_bytes<P: ParameterSet + Variant>(sk: &[u8]) -> (r: Result<Vec<u8>, Error>)
    ensures
        r is Ok <==> sk@.len() == sk_len_of(P::id()),
        r matches Ok(vk) ==> vk@ == vk_in(P::id(), sk@),
{
    match SigningKey::<P>::try_from(sk) {
        Ok(key) => Ok(key.as_ref().to_bytes().to_vec()),
        Err(e) => Err(e),
    }
}

/// Relies on `SigningKey::try_from` (exactly `SkLen` bytes) and on
/// `SigningKey::try_sign_with_context`, which fails only for a context longer
/// than 255 bytes, signs with `PK.seed` where no randomizer is given, and panics
/// on a randomizer that is not `n` bytes long; `Signature::to_bytes` gives
/// `SigLen` bytes.
#[verifier::external_body]
pub(crate) fn sign_bytes<P: ParameterSet + Variant>(
    sk: &[u8],
    msg: &[u8],
    ctx: &[u8],
    addrnd: Option<&[u8]>,
) -> (r: Result<Vec<u8>, Error>)
    requires
        addrnd matches Some(a) ==> a@.len() == n_of(P::id()),
    ensures
        r is Ok <==> (sk@.len() == sk_len_of(P::id()) && ctx@.len() <= 255),
        r matches Ok(sig) ==> sig@.len() == sig_len_of(P::id()),
        r matches Ok(sig) ==> sig@ == signature_of(P::id(), sk@, msg@, ctx@, randomizer_used(P::id(), sk@, addrnd)),
{
    let key = SigningKey::<P>::try_from(sk)?;
    let sig = key.try_sign_with_context(msg, ctx, addrnd)?;
    Ok(sig.to_bytes().to_vec())
}

/// Relies on `VerifyingKey::try_from` (exactly `VkLen` bytes), on
/// `Signature::try_from` (exactly `SigLen` bytes) and on
/// `VerifyingKey::try_verify_with_context`, which fails for a context longer
/// than 255 bytes and otherwise exactly when `slh-verify` rejects.
#[verifier::external_body]
pub(crate) fn verify_bytes<P: ParameterSet + Variant>(
    vk: &[u8],
    msg: &[u8],
    ctx: &[u8],
    sig: &[u8],
) -> (r: Result<(), Error>)
    ensures
        r is Ok <==> (vk@.len() == vk_len_of(P::id()) && sig@.len() == sig_len_of(P::id())
            && ctx@.len() <= 255 && verifies(P::id(), vk@, msg@, ctx@, sig@)),
{
    let key = VerifyingKey::<P>::try_from(vk)?;
    let signature = Signature::<P>::try_from(sig)?;
    key.try_verify_with_context(msg, ctx, &signature)
}

} // verus!
