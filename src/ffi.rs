//! The flat convention: (pointer, length) pairs, caller-allocated output
//! buffers of the exact catalog length, and an integer status.
//!
//! A pointer argument is an `Option`: `None` stands for a null pointer. A null
//! pointer with length zero is empty data; with any other length it is
//! [`SlhDsaStatus::NullPtr`]. Lengths are checked against the catalog before
//! any buffer is looked at.
use crate::ops::{
    derive_outcome, derive_verifying_key, generate_keypair, keypair_signing_key, seed_len,
    sign_deterministic, sign_deterministic_outcome, sign_outcome, sign_with_rng, verify_outcome,
    verify_with_context,
};
use crate::params::{
    code_of, id_of_code, is_known_code, name_of, seed_len_of, sig_len_of, sk_len_of,
    vk_len_of, ParameterSetId,
};
use crate::primitive::vk_in;
use crate::router::{sig_len, sk_len, vk_len};
use crate::status::{message_of, status_of, SlhDsaStatus};
use vstd::prelude::*;

verus! {

/// The bytes behind a foreign argument, if its pointer is not null.
pub open spec fn arg_view(ptr: Option<&[u8]>) -> Option<Seq<u8>> {
    match ptr {
        Some(s) => Some(s@),
        None => None,
    }
}

/// The data a foreign argument carries: nothing behind a null pointer.
pub open spec fn arg_bytes(arg: Option<Seq<u8>>) -> Seq<u8> {
    match arg {
        Some(bytes) => bytes,
        None => Seq::empty(),
    }
}

/// A null pointer paired with a non-zero length.
pub open spec fn is_null_with_data(present: bool, len: usize) -> bool {
    !present && len != 0
}

/// The status of a flat key generation.
pub open spec fn flat_keypair_status(
    param: ParameterSetId,
    entropy: Seq<u8>,
    sk_present: bool,
    sk_len: usize,
    vk_present: bool,
    vk_len: usize,
) -> SlhDsaStatus {
    if sk_len != sk_len_of(param) || vk_len != vk_len_of(param) {
        SlhDsaStatus::InvalidLength
    } else if is_null_with_data(sk_present, sk_len) || is_null_with_data(vk_present, vk_len) {
        SlhDsaStatus::NullPtr
    } else if entropy.len() != seed_len_of(param) {
        SlhDsaStatus::InvalidParam
    } else {
        SlhDsaStatus::Success
    }
}

/// The outcome of a flat signing call: with the randomizer `addrnd`, or
/// deterministic without one.
pub open spec fn flat_sign_outcome(
    param: ParameterSetId,
    sk: Option<Seq<u8>>,
    sk_len: usize,
    msg: Option<Seq<u8>>,
    msg_len: usize,
    ctx: Option<Seq<u8>>,
    ctx_len: usize,
    out_present: bool,
    out_len: usize,
    addrnd: Option<Seq<u8>>,
) -> Result<Seq<u8>, SlhDsaStatus> {
    if sk_len != sk_len_of(param) || out_len != sig_len_of(param) {
        Err(SlhDsaStatus::InvalidLength)
    } else if is_null_with_data(sk is Some, sk_len) || is_null_with_data(msg is Some, msg_len)
        || is_null_with_data(ctx is Some, ctx_len) || is_null_with_data(out_present, out_len) {
        Err(SlhDsaStatus::NullPtr)
    } else {
        match addrnd {
            Some(a) => sign_outcome(param, arg_bytes(sk), arg_bytes(msg), arg_bytes(ctx), a),
            None => sign_deterministic_outcome(param, arg_bytes(sk), arg_bytes(msg), arg_bytes(ctx)),
        }
    }
}

/// The outcome of a flat verifying-key derivation.
pub open spec fn flat_derive_outcome(
    param: ParameterSetId,
    sk: Option<Seq<u8>>,
    sk_len: usize,
    out_present: bool,
    out_len: usize,
) -> Result<Seq<u8>, SlhDsaStatus> {
    if sk_len != sk_len_of(param) || out_len != vk_len_of(param) {
        Err(SlhDsaStatus::InvalidLength)
    } else if is_null_with_data(sk is Some, sk_len) || is_null_with_data(out_present, out_len) {
        Err(SlhDsaStatus::NullPtr)
    } else {
        derive_outcome(param, arg_bytes(sk))
    }
}

/// The status of a flat verification.
pub open spec fn flat_verify_status(
    param: ParameterSetId,
    vk: Option<Seq<u8>>,
    vk_len: usize,
    msg: Option<Seq<u8>>,
    msg_len: usize,
    ctx: Option<Seq<u8>>,
    ctx_len: usize,
    sig: Option<Seq<u8>>,
    sig_len: usize,
) -> SlhDsaStatus {
    if vk_len != vk_len_of(param) || sig_len != sig_len_of(param) {
        SlhDsaStatus::InvalidLength
    } else if is_null_with_data(vk is Some, vk_len) || is_null_with_data(msg is Some, msg_len)
        || is_null_with_data(ctx is Some, ctx_len) || is_null_with_data(sig is Some, sig_len) {
        SlhDsaStatus::NullPtr
    } else {
        status_of(verify_outcome(param, arg_bytes(vk), arg_bytes(msg), arg_bytes(ctx), arg_bytes(sig)))
    }
}

/// The data behind a foreign argument: empty for a null pointer of length
/// zero, [`SlhDsaStatus::NullPtr`] for a null pointer of any other length.
fn read_slice<'a>(ptr: Option<&'a [u8]>, len: usize) -> (r: Result<&'a [u8], SlhDsaStatus>)
    requires
        ptr matches Some(s) ==> s@.len() == len,
    ensures
        r is Err <==> is_null_with_data(ptr is Some, len),
        r is Err ==> r == Err::<&[u8], SlhDsaStatus>(SlhDsaStatus::NullPtr),
        r matches Ok(s) ==> s@ == arg_bytes(arg_view(ptr)),
{
    match ptr {
        Some(s) => Ok(s),
        None => {
            if len == 0 {
                let empty: &[u8] = &[];
                assert(empty@ =~= Seq::<u8>::empty());
                Ok(empty)
            } else {
                Err(SlhDsaStatus::NullPtr)
            }
        },
    }
}

/// Copies `src` into the caller's buffer of the same length.
fn copy_into(out: &mut [u8], src: &Vec<u8>)
    requires
        old(out)@.len() == src@.len(),
    ensures
        final(out)@ == src@,
{
    let mut i: usize = 0;
    while i < src.len()
        invariant
            i <= src@.len(),
            out@.len() == src@.len(),
            forall|j: int| 0 <= j < i ==> out@[j] == src@[j],
        decreases src@.len() - i,
    {
        out[i] = src[i];
        i = i + 1;
    }
    assert(out@ =~= src@);
}

/// The FIPS 205 name of the parameter set.
pub fn slh_dsa_parameter_name(param: ParameterSetId) -> (r: &'static str)
    ensures
        r@ == name_of(param),
{
    param.name()
}

/// Byte length of a signing key of the parameter set.
pub fn slh_dsa_signing_key_len(param: ParameterSetId) -> (r: usize)
    ensures
        r == sk_len_of(param),
{
    sk_len(param)
}

/// Byte length of a verifying key of the parameter set.
pub fn slh_dsa_verifying_key_len(param: ParameterSetId) -> (r: usize)
    ensures
        r == vk_len_of(param),
{
    vk_len(param)
}

/// Byte length of a signature of the parameter set.
pub fn slh_dsa_signature_len(param: ParameterSetId) -> (r: usize)
    ensures
        r == sig_len_of(param),
{
    sig_len(param)
}

/// Generates a key pair from `entropy` (`seed_len(param)` bytes) into the
/// caller's buffers.
pub fn slh_dsa_keypair_generate(
    param: ParameterSetId,
    signing_key_out: Option<&mut [u8]>,
    signing_key_len: usize,
    verifying_key_out: Option<&mut [u8]>,
    verifying_key_len: usize,
    entropy: &[u8],
) -> (r: SlhDsaStatus)
    requires
        signing_key_out matches Some(o) ==> o@.len() == signing_key_len,
        verifying_key_out matches Some(o) ==> o@.len() == verifying_key_len,
    ensures
        r == flat_keypair_status(
            param,
            entropy@,
            signing_key_out is Some,
            signing_key_len,
            verifying_key_out is Some,
            verifying_key_len,
        ),
        signing_key_out matches Some(o) ==> (r == SlhDsaStatus::Success ==> final(o)@
            == keypair_signing_key(param, entropy@)),
        signing_key_out matches Some(o) ==> (r != SlhDsaStatus::Success ==> final(o)@ == o@),
        verifying_key_out matches Some(o) ==> (r == SlhDsaStatus::Success ==> final(o)@ == vk_in(
            param,
            keypair_signing_key(param, entropy@),
        )),
        verifying_key_out matches Some(o) ==> (r != SlhDsaStatus::Success ==> final(o)@ == o@),
{
    let expected_sk = sk_len(param);
    let expected_vk = vk_len(param);
    if signing_key_len != expected_sk || verifying_key_len != expected_vk {
        return SlhDsaStatus::InvalidLength;
    }
    match (signing_key_out, verifying_key_out) {
        (Some(sk_out), Some(vk_out)) => {
            if entropy.len() != seed_len(param) {
                return SlhDsaStatus::InvalidParam;
            }
            let (sk, vk) = generate_keypair(param, entropy);
            copy_into(sk_out, &sk);
            copy_into(vk_out, &vk);
            SlhDsaStatus::Success
        },
        _ => SlhDsaStatus::NullPtr,
    }
}

/// Signs with the randomizer `addrnd` (`randomizer_len(param)` bytes) into
/// the caller's signature buffer.
pub fn slh_dsa_sign(
    param: ParameterSetId,
    signing_key: Option<&[u8]>,
    signing_key_len: usize,
    msg: Option<&[u8]>,
    msg_len: usize,
    ctx: Option<&[u8]>,
    ctx_len: usize,
    signature_out: Option<&mut [u8]>,
    signature_len: usize,
    addrnd: &[u8],
) -> (r: SlhDsaStatus)
    requires
        signing_key matches Some(s) ==> s@.len() == signing_key_len,
        msg matches Some(s) ==> s@.len() == msg_len,
        ctx matches Some(s) ==> s@.len() == ctx_len,
        signature_out matches Some(o) ==> o@.len() == signature_len,
    ensures
        r == status_of(
            flat_sign_outcome(
                param,
                arg_view(signing_key),
                signing_key_len,
                arg_view(msg),
                msg_len,
                arg_view(ctx),
                ctx_len,
                signature_out is Some,
                signature_len,
                Some(addrnd@),
            ),
        ),
        signature_out matches Some(o) ==> (r == SlhDsaStatus::Success ==> Ok::<Seq<u8>, SlhDsaStatus>(final(o)@)
            == flat_sign_outcome(
            param,
            arg_view(signing_key),
            signing_key_len,
            arg_view(msg),
            msg_len,
            arg_view(ctx),
            ctx_len,
            true,
            signature_len,
            Some(addrnd@),
        )),
        signature_out matches Some(o) ==> (r != SlhDsaStatus::Success ==> final(o)@ == o@),
{
    let expected_sk = sk_len(param);
    let expected_sig = sig_len(param);
    if signing_key_len != expected_sk || signature_len != expected_sig {
        return SlhDsaStatus::InvalidLength;
    }
    let sk_bytes = match read_slice(signing_key, signing_key_len) {
        Ok(slice) => slice,
        Err(status) => return status,
    };
    let msg_bytes = match read_slice(msg, msg_len) {
        Ok(slice) => slice,
        Err(status) => return status,
    };
    let ctx_bytes = match read_slice(ctx, ctx_len) {
        Ok(slice) => slice,
        Err(status) => return status,
    };
    match signature_out {
        Some(out) => match sign_with_rng(param, sk_bytes, addrnd, msg_bytes, ctx_bytes) {
            Ok(sig) => {
                copy_into(out, &sig);
                SlhDsaStatus::Success
            },
            Err(status) => status,
        },
        None => SlhDsaStatus::NullPtr,
    }
}

/// Signs deterministically into the caller's signature buffer.
pub fn slh_dsa_sign_deterministic(
    param: ParameterSetId,
    signing_key: Option<&[u8]>,
    signing_key_len: usize,
    msg: Option<&[u8]>,
    msg_len: usize,
    ctx: Option<&[u8]>,
    ctx_len: usize,
    signature_out: Option<&mut [u8]>,
    signature_len: usize,
) -> (r: SlhDsaStatus)
    requires
        signing_key matches Some(s) ==> s@.len() == signing_key_len,
        msg matches Some(s) ==> s@.len() == msg_len,
        ctx matches Some(s) ==> s@.len() == ctx_len,
        signature_out matches Some(o) ==> o@.len() == signature_len,
    ensures
        r == status_of(
            flat_sign_outcome(
                param,
                arg_view(signing_key),
                signing_key_len,
                arg_view(msg),
                msg_len,
                arg_view(ctx),
                ctx_len,
                signature_out is Some,
                signature_len,
                None,
            ),
        ),
        signature_out matches Some(o) ==> (r == SlhDsaStatus::Success ==> Ok::<Seq<u8>, SlhDsaStatus>(final(o)@)
            == flat_sign_outcome(
            param,
            arg_view(signing_key),
            signing_key_len,
            arg_view(msg),
            msg_len,
            arg_view(ctx),
            ctx_len,
            true,
            signature_len,
            None,
        )),
        signature_out matches Some(o) ==> (r != SlhDsaStatus::Success ==> final(o)@ == o@),
{
    let expected_sk = sk_len(param);
    let expected_sig = sig_len(param);
    if signing_key_len != expected_sk || signature_len != expected_sig {
        return SlhDsaStatus::InvalidLength;
    }
    let sk_bytes = match read_slice(signing_key, signing_key_len) {
        Ok(slice) => slice,
        Err(status) => return status,
    };
    let msg_bytes = match read_slice(msg, msg_len) {
        Ok(slice) => slice,
        Err(status) => return status,
    };
    let ctx_bytes = match read_slice(ctx, ctx_len) {
        Ok(slice) => slice,
        Err(status) => return status,
    };
    match signature_out {
        Some(out) => match sign_deterministic(param, sk_bytes, msg_bytes, ctx_bytes) {
            Ok(sig) => {
                copy_into(out, &sig);
                SlhDsaStatus::Success
            },
            Err(status) => status,
        },
        None => SlhDsaStatus::NullPtr,
    }
}

/// Writes the verifying key of a signing key into the caller's buffer.
pub fn slh_dsa_verifying_key_from_signing_key(
    param: ParameterSetId,
    signing_key: Option<&[u8]>,
    signing_key_len: usize,
    verifying_key_out: Option<&mut [u8]>,
    verifying_key_len: usize,
) -> (r: SlhDsaStatus)
    requires
        signing_key matches Some(s) ==> s@.len() == signing_key_len,
        verifying_key_out matches Some(o) ==> o@.len() == verifying_key_len,
    ensures
        r == status_of(
            flat_derive_outcome(
                param,
                arg_view(signing_key),
                signing_key_len,
                verifying_key_out is Some,
                verifying_key_len,
            ),
        ),
        verifying_key_out matches Some(o) ==> (r == SlhDsaStatus::Success ==> Ok::<Seq<u8>, SlhDsaStatus>(final(o)@)
            == flat_derive_outcome(
            param,
            arg_view(signing_key),
            signing_key_len,
            true,
            verifying_key_len,
        )),
        verifying_key_out matches Some(o) ==> (r != SlhDsaStatus::Success ==> final(o)@ == o@),
{
    let expected_sk = sk_len(param);
    let expected_vk = vk_len(param);
    if signing_key_len != expected_sk || verifying_key_len != expected_vk {
        return SlhDsaStatus::InvalidLength;
    }
    let sk_bytes = match read_slice(signing_key, signing_key_len) {
        Ok(slice) => slice,
        Err(status) => return status,
    };
    match verifying_key_out {
        Some(out) => match derive_verifying_key(param, sk_bytes) {
            Ok(vk) => {
                copy_into(out, &vk);
                SlhDsaStatus::Success
            },
            Err(status) => status,
        },
        None => SlhDsaStatus::NullPtr,
    }
}

/// Verifies a signature.
pub fn slh_dsa_verify(
    param: ParameterSetId,
    verifying_key: Option<&[u8]>,
    verifying_key_len: usize,
    msg: Option<&[u8]>,
    msg_len: usize,
    ctx: Option<&[u8]>,
    ctx_len: usize,
    signature: Option<&[u8]>,
    signature_len: usize,
) -> (r: SlhDsaStatus)
    requires
        verifying_key matches Some(s) ==> s@.len() == verifying_key_len,
        msg matches Some(s) ==> s@.len() == msg_len,
        ctx matches Some(s) ==> s@.len() == ctx_len,
        signature matches Some(s) ==> s@.len() == signature_len,
    ensures
        r == flat_verify_status(
            param,
            arg_view(verifying_key),
            verifying_key_len,
            arg_view(msg),
            msg_len,
            arg_view(ctx),
            ctx_len,
            arg_view(signature),
            signature_len,
        ),
{
    let expected_vk = vk_len(param);
    let expected_sig = sig_len(param);
    if verifying_key_len != expected_vk || signature_len != expected_sig {
        return SlhDsaStatus::InvalidLength;
    }
    let vk_bytes = match read_slice(verifying_key, verifying_key_len) {
        Ok(slice) => slice,
        Err(status) => return status,
    };
    let msg_bytes = match read_slice(msg, msg_len) {
        Ok(slice) => slice,
        Err(status) => return status,
    };
    let ctx_bytes = match read_slice(ctx, ctx_len) {
        Ok(slice) => slice,
        Err(status) => return status,
    };
    let sig_bytes = match read_slice(signature, signature_len) {
        Ok(slice) => slice,
        Err(status) => return status,
    };
    match verify_with_context(param, vk_bytes, msg_bytes, ctx_bytes, sig_bytes) {
        Ok(()) => SlhDsaStatus::Success,
        Err(status) => status,
    }
}

/// A short human-readable message for a status.
pub fn slh_dsa_status_string(status: SlhDsaStatus) -> (r: &'static str)
    ensures
        r@ == message_of(status),
{
    status.message()
}

/// Whether a raw integer is the code of a parameter set.
pub fn slh_dsa_parameter_set_is_valid(raw: u32) -> (r: bool)
    ensures
        r == is_known_code(raw),
{
    ParameterSetId::from_u32(raw).is_some()
}

/// The parameter set with the given code; an unknown code is `None`, never a
/// default set.
pub fn slh_dsa_parameter_set_from_u32(raw: u32) -> (r: Option<ParameterSetId>)
    ensures
        r == id_of_code(raw),
        r is Some <==> is_known_code(raw),
        r matches Some(id) ==> code_of(id) == raw,
{
    ParameterSetId::from_u32(raw)
}

/// The stable numeric code of a parameter set.
pub fn slh_dsa_parameter_set_to_u32(param: ParameterSetId) -> (r: u32)
    ensures
        r == code_of(param),
{
    param.to_u32()
}

/// Whether a status reports a verified signature.
pub fn slh_dsa_signature_verify_result_to_bool(status: SlhDsaStatus) -> (r: bool)
    ensures
        r == (status == SlhDsaStatus::Success),
{
    status == SlhDsaStatus::Success
}

/// Fills a caller-owned buffer with zeros; a null pointer is left alone.
pub fn slh_dsa_zeroize(buf: Option<&mut [u8]>)
    ensures
        buf matches Some(b) ==> final(b)@ == Seq::new(b@.len(), |i: int| 0u8),
{
    match buf {
        Some(b) => {
            let ghost len = b@.len();
            let mut i: usize = 0;
            while i < b.len()
                invariant
                    b@.len() == len,
                    i <= len,
                    forall|j: int| 0 <= j < i ==> b@[j] == 0u8,
                decreases b@.len() - i,
            {
                b[i] = 0;
                i = i + 1;
            }
            assert(b@ =~= Seq::new(len, |i: int| 0u8));
        },
        None => {},
    }
}

} // verus!
