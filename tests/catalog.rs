use slh_dsa_core::ffi;
use slh_dsa_core::{sig_len_for, sk_len_for, vk_len_for, ParameterSetId, SlhDsaStatus};

const ALL: [ParameterSetId; 12] = [
    ParameterSetId::Shake128s,
    ParameterSetId::Shake128f,
    ParameterSetId::Shake192s,
    ParameterSetId::Shake192f,
    ParameterSetId::Shake256s,
    ParameterSetId::Shake256f,
    ParameterSetId::Sha2_128s,
    ParameterSetId::Sha2_128f,
    ParameterSetId::Sha2_192s,
    ParameterSetId::Sha2_192f,
    ParameterSetId::Sha2_256s,
    ParameterSetId::Sha2_256f,
];

#[test]
fn codes_round_trip_for_every_variant() {
    for (i, id) in ALL.iter().enumerate() {
        let code = id.to_u32();
        assert_eq!(code, i as u32 + 1);
        assert_eq!(ParameterSetId::from_u32(code), Some(*id));
        assert!(ffi::slh_dsa_parameter_set_is_valid(code));
        assert_eq!(ffi::slh_dsa_parameter_set_to_u32(*id), code);
        assert_eq!(ffi::slh_dsa_parameter_set_from_u32(code), Some(*id));
    }
}

#[test]
fn unknown_codes_are_rejected_not_defaulted() {
    for raw in [0u32, 13, 14, 255, 1000, u32::MAX] {
        assert_eq!(ParameterSetId::from_u32(raw), None);
        assert!(!ffi::slh_dsa_parameter_set_is_valid(raw));
        assert_eq!(ffi::slh_dsa_parameter_set_from_u32(raw), None);
    }
}

#[test]
fn names_match_fips_205() {
    let expected = [
        "SLH-DSA-SHAKE-128s",
        "SLH-DSA-SHAKE-128f",
        "SLH-DSA-SHAKE-192s",
        "SLH-DSA-SHAKE-192f",
        "SLH-DSA-SHAKE-256s",
        "SLH-DSA-SHAKE-256f",
        "SLH-DSA-SHA2-128s",
        "SLH-DSA-SHA2-128f",
        "SLH-DSA-SHA2-192s",
        "SLH-DSA-SHA2-192f",
        "SLH-DSA-SHA2-256s",
        "SLH-DSA-SHA2-256f",
    ];
    for (id, name) in ALL.iter().zip(expected.iter()) {
        assert_eq!(id.name(), *name);
        assert_eq!(ffi::slh_dsa_parameter_name(*id), *name);
        assert_eq!(slh_dsa_core::managed::slh_dsa_parameter_name(*id), *name);
        assert_eq!(slh_dsa_core::scaffold::slh_dsa_parameter_name(*id), *name);
    }
}

#[test]
fn lengths_match_the_catalog_for_every_variant() {
    let expected: [(usize, usize, usize); 12] = [
        (64, 32, 7856),
        (64, 32, 17088),
        (96, 48, 16224),
        (96, 48, 35664),
        (128, 64, 29792),
        (128, 64, 49856),
        (64, 32, 7856),
        (64, 32, 17088),
        (96, 48, 16224),
        (96, 48, 35664),
        (128, 64, 29792),
        (128, 64, 49856),
    ];
    for (id, (sk, vk, sig)) in ALL.iter().zip(expected.iter()) {
        for _ in 0..3 {
            assert_eq!(sk_len_for(*id), Some(*sk));
            assert_eq!(vk_len_for(*id), Some(*vk));
            assert_eq!(sig_len_for(*id), Some(*sig));
            assert_eq!(ffi::slh_dsa_signing_key_len(*id), *sk);
            assert_eq!(ffi::slh_dsa_verifying_key_len(*id), *vk);
            assert_eq!(ffi::slh_dsa_signature_len(*id), *sig);
            assert_eq!(slh_dsa_core::managed::slh_dsa_signing_key_len(*id), *sk as u64);
            assert_eq!(slh_dsa_core::managed::slh_dsa_verifying_key_len(*id), *vk as u64);
            assert_eq!(slh_dsa_core::managed::slh_dsa_signature_len(*id), *sig as u64);
            assert_eq!(slh_dsa_core::scaffold::slh_dsa_signing_key_len(*id), *sk as u64);
            assert_eq!(slh_dsa_core::scaffold::slh_dsa_verifying_key_len(*id), *vk as u64);
            assert_eq!(slh_dsa_core::scaffold::slh_dsa_signature_len(*id), *sig as u64);
            assert_eq!(slh_dsa_core::randomizer_len(*id), *sk / 4);
            assert_eq!(slh_dsa_core::seed_len(*id), 3 * *sk / 4);
        }
    }
}

#[test]
fn status_strings_and_verdicts() {
    let cases = [
        (SlhDsaStatus::Success, "OK", true),
        (SlhDsaStatus::NullPtr, "Null pointer", false),
        (SlhDsaStatus::InvalidParam, "Invalid parameter", false),
        (SlhDsaStatus::InvalidLength, "Invalid length", false),
        (SlhDsaStatus::DecodeError, "Decode error", false),
        (SlhDsaStatus::VerifyFailed, "Verification failed", false),
    ];
    for (status, message, ok) in cases {
        assert_eq!(status.message(), message);
        assert_eq!(ffi::slh_dsa_status_string(status), message);
        assert_eq!(ffi::slh_dsa_signature_verify_result_to_bool(status), ok);
    }
}

#[test]
fn zeroize_clears_a_buffer_and_ignores_null() {
    let mut buf = vec![0xAAu8; 40];
    ffi::slh_dsa_zeroize(Some(buf.as_mut_slice()));
    assert!(buf.iter().all(|b| *b == 0));
    let mut empty: Vec<u8> = Vec::new();
    ffi::slh_dsa_zeroize(Some(empty.as_mut_slice()));
    ffi::slh_dsa_zeroize(None);
}

#[test]
fn os_entropy_has_the_requested_length() {
    let bytes = slh_dsa_core::entropy::draw_entropy(48).expect("entropy source");
    assert_eq!(bytes.len(), 48);
    assert!(bytes.iter().any(|b| *b != 0));
    let none = slh_dsa_core::entropy::draw_entropy(0).expect("entropy source");
    assert!(none.is_empty());
}
