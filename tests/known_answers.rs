use slh_dsa_core::{derive_verifying_key, generate_keypair, ParameterSetId};

fn hex(s: &str) -> Vec<u8> {
    (0..s.len())
        .step_by(2)
        .map(|i| u8::from_str_radix(&s[i..i + 2], 16).expect("hex digit"))
        .collect()
}

fn check_vector(id: ParameterSetId, sk_seed: &str, sk_prf: &str, pk_seed: &str, sk: &str, pk: &str) {
    let mut entropy = hex(sk_seed);
    entropy.extend(hex(sk_prf));
    entropy.extend(hex(pk_seed));
    let (signing_key, verifying_key) = generate_keypair(id, &entropy);
    assert_eq!(signing_key, hex(sk));
    assert_eq!(verifying_key, hex(pk));
    assert_eq!(derive_verifying_key(id, &signing_key), Ok(hex(pk)));
}

#[test]
fn keygen_matches_acvp_vector_sha2_128s() {
    check_vector(
        ParameterSetId::Sha2_128s,
        "2F896D61D9CD9038CA303394FADAA22A",
        "24AC5EC1D86A989CA2196C3C8632419C",
        "1A05A42FE300E87B16AEE116CB2E2363",
        "2F896D61D9CD9038CA303394FADAA22A24AC5EC1D86A989CA2196C3C8632419C1A05A42FE300E87B16AEE116CB2E236358E2C3E62632C9DE03D08A535A0EB7E7",
        "1A05A42FE300E87B16AEE116CB2E236358E2C3E62632C9DE03D08A535A0EB7E7",
    );
}

#[test]
fn keygen_matches_acvp_vector_sha2_192f() {
    check_vector(
        ParameterSetId::Sha2_192f,
        "8596C97C522D258038765AC80110A584A4E342D58149EBFC",
        "763CA88D40D68C201C76C2F8DF0908A39F27009B7D3B1E6C",
        "BD409651BF5E717D83096506B715C3543285AA83535F7743",
        "8596C97C522D258038765AC80110A584A4E342D58149EBFC763CA88D40D68C201C76C2F8DF0908A39F27009B7D3B1E6CBD409651BF5E717D83096506B715C3543285AA83535F77433EA3D6D2E7EBF150C2F21DAD9FB71977C83EC6D59C36E0D4",
        "BD409651BF5E717D83096506B715C3543285AA83535F77433EA3D6D2E7EBF150C2F21DAD9FB71977C83EC6D59C36E0D4",
    );
}

#[test]
fn keygen_matches_acvp_vector_shake256f() {
    check_vector(
        ParameterSetId::Shake256f,
        "758161EAF6DB91C65F185B26FD490AFD808E987B339D2CBB5B3045BC2ED9A33D",
        "5A703A6A2A687A8AE1883A9FC957C26E17F5569D5A28C144780DF013C9AA8324",
        "0A0EE387983FC9FBE9D5B80A2787C39C6FC1BE3364B9D1FD0C6DC4EDF70E28AA",
        "758161EAF6DB91C65F185B26FD490AFD808E987B339D2CBB5B3045BC2ED9A33D5A703A6A2A687A8AE1883A9FC957C26E17F5569D5A28C144780DF013C9AA83240A0EE387983FC9FBE9D5B80A2787C39C6FC1BE3364B9D1FD0C6DC4EDF70E28AA397DC9D892E41418FCFF892135D8B33FBCFDF7FFB82B62C7CD2618E18648151C",
        "0A0EE387983FC9FBE9D5B80A2787C39C6FC1BE3364B9D1FD0C6DC4EDF70E28AA397DC9D892E41418FCFF892135D8B33FBCFDF7FFB82B62C7CD2618E18648151C",
    );
}
