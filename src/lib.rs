//! SLH-DSA (FIPS 205) over twelve parameter sets, behind one dispatch and
//! three foreign calling conventions.
pub mod entropy;
pub mod ffi;
pub mod laws;
pub mod managed;
pub mod ops;
pub mod params;
pub mod primitive;
pub mod router;
pub mod scaffold;
pub mod status;

pub use params::ParameterSetId;
pub use status::SlhDsaStatus;
pub use ops::{
    derive_verifying_key, generate_keypair, randomizer_len, seed_len, sig_len_for, sign_deterministic,
    sign_with_rng, sk_len_for, verify_with_context, vk_len_for,
};
