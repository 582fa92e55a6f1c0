//! Properties that relate the operations and the three conventions.
use crate::ffi::{flat_derive_outcome, flat_sign_outcome, flat_verify_status};
use crate::managed::{boundary_derive_outcome, boundary_sign_outcome, boundary_verify_status};
use crate::ops::{bytes_result, sign_deterministic_outcome, sign_outcome};
use crate::params::{
    n_of, randomizer_len_of, seed_len_of, sig_len_of, sk_len_of, vk_len_of, ParameterSetId,
};
use crate::primitive::{pk_seed_in, vk_in};
use crate::status::SlhDsaStatus;
use vstd::prelude::*;

verus! {

/// Deterministic signing is a function of key, message and context: any two
/// results that `sign_deterministic` may give for the same inputs are equal,
/// and each is randomized signing with `PK.seed` as the randomizer.
pub proof fn law_deterministic_signing(
    param: ParameterSetId,
    sk: Seq<u8>,
    msg: Seq<u8>,
    ctx: Seq<u8>,
    first: Result<Vec<u8>, SlhDsaStatus>,
    second: Result<Vec<u8>, SlhDsaStatus>,
)
    requires
        bytes_result(first) == sign_deterministic_outcome(param, sk, msg, ctx),
        bytes_result(second) == sign_deterministic_outcome(param, sk, msg, ctx),
    ensures
        bytes_result(first) == bytes_result(second),
        (first is Ok <==> second is Ok),
        (first matches Ok(a) ==> (second matches Ok(b) && a@ == b@)),
        bytes_result(first) == sign_outcome(param, sk, msg, ctx, pk_seed_in(param, sk)),
{
}

/// The catalog's lengths are positive and consistent with one another: a
/// signing key holds four `n`-byte values, a verifying key the last two of
/// them, a randomizer is a quarter of a signing key and key generation takes
/// three seeds.
pub proof fn law_catalog_lengths(param: ParameterSetId, sk: Seq<u8>)
    requires
        sk.len() == sk_len_of(param),
    ensures
        sk_len_of(param) > 0,
        vk_len_of(param) > 0,
        sig_len_of(param) > 0,
        sk_len_of(param) == 2 * vk_len_of(param),
        randomizer_len_of(param) == n_of(param),
        seed_len_of(param) + randomizer_len_of(param) == sk_len_of(param),
        vk_in(param, sk).len() == vk_len_of(param),
        pk_seed_in(param, sk).len() == randomizer_len_of(param),
{
}

/// The flat convention classifies signing as the other two do, for non-null
/// arguments and an output buffer of the catalog length.
pub proof fn law_sign_agrees_across_conventions(
    param: ParameterSetId,
    sk: Seq<u8>,
    msg: Seq<u8>,
    ctx: Seq<u8>,
    addrnd: Option<Seq<u8>>,
)
    requires
        sk.len() <= usize::MAX,
        msg.len() <= usize::MAX,
        ctx.len() <= usize::MAX,
    ensures
        flat_sign_outcome(
            param,
            Some(sk),
            sk.len() as usize,
            Some(msg),
            msg.len() as usize,
            Some(ctx),
            ctx.len() as usize,
            true,
            sig_len_of(param) as usize,
            addrnd,
        ) == boundary_sign_outcome(param, sk, msg, ctx, addrnd),
{
}

/// The flat convention classifies verifying-key derivation as the other two
/// do, for a non-null key and an output buffer of the catalog length.
pub proof fn law_derive_agrees_across_conventions(param: ParameterSetId, sk: Seq<u8>)
    requires
        sk.len() <= usize::MAX,
    ensures
        flat_derive_outcome(param, Some(sk), sk.len() as usize, true, vk_len_of(param) as usize)
            == boundary_derive_outcome(param, sk),
{
}

/// The flat convention classifies verification as the other two do, for
/// non-null arguments.
pub proof fn law_verify_agrees_across_conventions(
    param: ParameterSetId,
    vk: Seq<u8>,
    msg: Seq<u8>,
    ctx: Seq<u8>,
    sig: Seq<u8>,
)
    requires
        vk.len() <= usize::MAX,
        msg.len() <= usize::MAX,
        ctx.len() <= usize::MAX,
        sig.len() <= usize::MAX,
    ensures
        flat_verify_status(
            param,
            Some(vk),
            vk.len() as usize,
            Some(msg),
            msg.len() as usize,
            Some(ctx),
            ctx.len() as usize,
            Some(sig),
            sig.len() as usize,
        ) == boundary_verify_status(param, vk, msg, ctx, sig),
{
}

/// A signing key of the wrong length is rejected with `InvalidLength` by every
/// operation that takes one, on every convention. On the flat convention the
/// outcome depends on the stated length alone, whatever the pointers are.
pub proof fn law_wrong_signing_key_length_rejected(
    param: ParameterSetId,
    sk: Seq<u8>,
    msg: Seq<u8>,
    ctx: Seq<u8>,
    addrnd: Option<Seq<u8>>,
    flat_sk: Option<Seq<u8>>,
    flat_sk_len: usize,
    flat_msg: Option<Seq<u8>>,
    flat_msg_len: usize,
    flat_ctx: Option<Seq<u8>>,
    flat_ctx_len: usize,
    out_present: bool,
    out_len: usize,
)
    requires
        sk.len() != sk_len_of(param),
        flat_sk_len != sk_len_of(param),
    ensures
        boundary_sign_outcome(param, sk, msg, ctx, addrnd) == Err::<Seq<u8>, SlhDsaStatus>(
            SlhDsaStatus::InvalidLength,
        ),
        boundary_derive_outcome(param, sk) == Err::<Seq<u8>, SlhDsaStatus>(
            SlhDsaStatus::InvalidLength,
        ),
        flat_sign_outcome(
            param,
            flat_sk,
            flat_sk_len,
            flat_msg,
            flat_msg_len,
            flat_ctx,
            flat_ctx_len,
            out_present,
            out_len,
            addrnd,
        ) == Err::<Seq<u8>, SlhDsaStatus>(SlhDsaStatus::InvalidLength),
        flat_derive_outcome(param, flat_sk, flat_sk_len, out_present, out_len) == Err::<
            Seq<u8>,
            SlhDsaStatus,
        >(SlhDsaStatus::InvalidLength),
{
}

} // verus!
