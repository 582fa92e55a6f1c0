use slh_dsa_core::ffi;
use slh_dsa_core::{generate_keypair, seed_len, ParameterSetId, SlhDsaStatus};

const ID: ParameterSetId = ParameterSetId::Sha2_128f;

fn keys() -> (Vec<u8>, Vec<u8>) {
    let e: Vec<u8> = (0..seed_len(ID)).map(|i| i as u8).collect();
    generate_keypair(ID, &e)
}

#[test]
fn flat_keypair_sign_verify() {
    let e: Vec<u8> = (0..seed_len(ID)).map(|i| i as u8).collect();
    let mut sk = vec![0u8; 64];
    let mut vk = vec![0u8; 32];
    let status =
        ffi::slh_dsa_keypair_generate(ID, Some(sk.as_mut_slice()), 64, Some(vk.as_mut_slice()), 32, &e);
    assert_eq!(status, SlhDsaStatus::Success);
    assert_eq!((sk.clone(), vk.clone()), generate_keypair(ID, &e));

    let mut derived = vec![0u8; 32];
    let status = ffi::slh_dsa_verifying_key_from_signing_key(
        ID,
        Some(&sk),
        64,
        Some(derived.as_mut_slice()),
        32,
    );
    assert_eq!(status, SlhDsaStatus::Success);
    assert_eq!(derived, vk);

    let msg = b"flat message";
    let mut sig = vec![0u8; 17088];
    let status = ffi::slh_dsa_sign_deterministic(
        ID,
        Some(&sk),
        64,
        Some(msg),
        msg.len(),
        None,
        0,
        Some(sig.as_mut_slice()),
        17088,
    );
    assert_eq!(status, SlhDsaStatus::Success);
    let status = ffi::slh_dsa_verify(ID, Some(&vk), 32, Some(msg), msg.len(), None, 0, Some(&sig), 17088);
    assert_eq!(status, SlhDsaStatus::Success);

    sig[5] ^= 0x10;
    let status = ffi::slh_dsa_verify(ID, Some(&vk), 32, Some(msg), msg.len(), None, 0, Some(&sig), 17088);
    assert_eq!(status, SlhDsaStatus::VerifyFailed);
}

#[test]
fn flat_randomized_sign_verifies() {
    let (sk, vk) = keys();
    let addrnd = [9u8; 16];
    let mut sig = vec![0u8; 17088];
    let status = ffi::slh_dsa_sign(
        ID,
        Some(&sk),
        64,
        Some(b"m"),
        1,
        Some(b"c"),
        1,
        Some(sig.as_mut_slice()),
        17088,
        &addrnd,
    );
    assert_eq!(status, SlhDsaStatus::Success);
    let status = ffi::slh_dsa_verify(ID, Some(&vk), 32, Some(b"m"), 1, Some(b"c"), 1, Some(&sig), 17088);
    assert_eq!(status, SlhDsaStatus::Success);
}

#[test]
fn flat_lengths_are_checked_before_pointers() {
    let mut out = vec![7u8; 17088];
    let status = ffi::slh_dsa_sign_deterministic(ID, None, 63, None, 5, None, 5, None, 17088);
    assert_eq!(status, SlhDsaStatus::InvalidLength);
    let status = ffi::slh_dsa_sign_deterministic(ID, None, 64, None, 0, None, 0, Some(out.as_mut_slice()), 17088);
    assert_eq!(status, SlhDsaStatus::NullPtr);
    let status = ffi::slh_dsa_verify(ID, None, 31, None, 0, None, 0, None, 17088);
    assert_eq!(status, SlhDsaStatus::InvalidLength);
    let status = ffi::slh_dsa_keypair_generate(ID, None, 64, None, 33, &[]);
    assert_eq!(status, SlhDsaStatus::InvalidLength);
    assert!(out.iter().all(|b| *b == 7));
}

#[test]
fn flat_null_pointers() {
    let (sk, vk) = keys();
    let mut out = vec![7u8; 17088];
    let status =
        ffi::slh_dsa_sign_deterministic(ID, Some(&sk), 64, None, 4, None, 0, Some(out.as_mut_slice()), 17088);
    assert_eq!(status, SlhDsaStatus::NullPtr);
    let status =
        ffi::slh_dsa_sign_deterministic(ID, Some(&sk), 64, None, 0, None, 2, Some(out.as_mut_slice()), 17088);
    assert_eq!(status, SlhDsaStatus::NullPtr);
    let status = ffi::slh_dsa_sign_deterministic(ID, Some(&sk), 64, None, 0, None, 0, None, 17088);
    assert_eq!(status, SlhDsaStatus::NullPtr);
    assert!(out.iter().all(|b| *b == 7));
    let status = ffi::slh_dsa_verify(ID, Some(&vk), 32, None, 0, None, 0, None, 17088);
    assert_eq!(status, SlhDsaStatus::NullPtr);
    let mut vk_out = vec![0u8; 32];
    let status = ffi::slh_dsa_verifying_key_from_signing_key(ID, None, 64, Some(vk_out.as_mut_slice()), 32);
    assert_eq!(status, SlhDsaStatus::NullPtr);
    let e = vec![0u8; 48];
    let mut sk_out = vec![0u8; 64];
    let status = ffi::slh_dsa_keypair_generate(ID, Some(sk_out.as_mut_slice()), 64, None, 32, &e);
    assert_eq!(status, SlhDsaStatus::NullPtr);
    assert!(sk_out.iter().all(|b| *b == 0));
}

#[test]
fn flat_null_with_zero_length_is_empty_data() {
    let (sk, vk) = keys();
    let mut a = vec![0u8; 17088];
    let mut b = vec![0u8; 17088];
    let s1 = ffi::slh_dsa_sign_deterministic(ID, Some(&sk), 64, None, 0, None, 0, Some(a.as_mut_slice()), 17088);
    let s2 = ffi::slh_dsa_sign_deterministic(ID, Some(&sk), 64, Some(&[]), 0, Some(&[]), 0, Some(b.as_mut_slice()), 17088);
    assert_eq!(s1, SlhDsaStatus::Success);
    assert_eq!(s2, SlhDsaStatus::Success);
    assert_eq!(a, b);
    let status = ffi::slh_dsa_verify(ID, Some(&vk), 32, None, 0, None, 0, Some(&a), 17088);
    assert_eq!(status, SlhDsaStatus::Success);
}

#[test]
fn flat_wrong_signing_key_length_is_rejected() {
    let (sk, _) = keys();
    let addrnd = [0u8; 16];
    for len in [0usize, 32, 63, 65, 128] {
        let buf = vec![1u8; len];
        let mut sig = vec![0u8; 17088];
        let mut vk = vec![0u8; 32];
        assert_eq!(
            ffi::slh_dsa_sign(ID, Some(&buf), len, Some(b"m"), 1, None, 0, Some(sig.as_mut_slice()), 17088, &addrnd),
            SlhDsaStatus::InvalidLength
        );
        assert_eq!(
            ffi::slh_dsa_sign_deterministic(ID, Some(&buf), len, Some(b"m"), 1, None, 0, Some(sig.as_mut_slice()), 17088),
            SlhDsaStatus::InvalidLength
        );
        assert_eq!(
            ffi::slh_dsa_verifying_key_from_signing_key(ID, Some(&buf), len, Some(vk.as_mut_slice()), 32),
            SlhDsaStatus::InvalidLength
        );
    }
    let mut short_out = vec![0u8; 100];
    assert_eq!(
        ffi::slh_dsa_sign_deterministic(ID, Some(&sk), 64, None, 0, None, 0, Some(short_out.as_mut_slice()), 100),
        SlhDsaStatus::InvalidLength
    );
}

#[test]
fn flat_bad_randomizer_and_context() {
    let (sk, _) = keys();
    let mut sig = vec![0u8; 17088];
    assert_eq!(
        ffi::slh_dsa_sign(ID, Some(&sk), 64, None, 0, None, 0, Some(sig.as_mut_slice()), 17088, &[0u8; 15]),
        SlhDsaStatus::InvalidParam
    );
    let long_ctx = vec![0u8; 300];
    assert_eq!(
        ffi::slh_dsa_sign_deterministic(ID, Some(&sk), 64, None, 0, Some(&long_ctx), 300, Some(sig.as_mut_slice()), 17088),
        SlhDsaStatus::InvalidParam
    );
    let mut sk_out = vec![0u8; 64];
    let mut vk_out = vec![0u8; 32];
    assert_eq!(
        ffi::slh_dsa_keypair_generate(ID, Some(sk_out.as_mut_slice()), 64, Some(vk_out.as_mut_slice()), 32, &[0u8; 47]),
        SlhDsaStatus::InvalidParam
    );
}
