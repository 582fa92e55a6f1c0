//! The catalog of SLH-DSA parameter sets: stable numeric codes, FIPS 205
//! names and the fixed byte lengths of keys and signatures.
use vstd::prelude::*;

verus! {

/// The twelve SLH-DSA parameter sets of FIPS 205.
#[derive(Clone, Copy, Debug, PartialEq, Eq, Structural)]
pub enum ParameterSetId {
    Shake128s,
    Shake128f,
    Shake192s,
    Shake192f,
    Shake256s,
    Shake256f,
    Sha2_128s,
    Sha2_128f,
    Sha2_192s,
    Sha2_192f,
    Sha2_256s,
    Sha2_256f,
}

/// The stable numeric code of a parameter set, `1..=12`.
pub open spec fn code_of(id: ParameterSetId) -> u32 {
    match id {
        ParameterSetId::Shake128s => 1,
        ParameterSetId::Shake128f => 2,
        ParameterSetId::Shake192s => 3,
        ParameterSetId::Shake192f => 4,
        ParameterSetId::Shake256s => 5,
        ParameterSetId::Shake256f => 6,
        ParameterSetId::Sha2_128s => 7,
        ParameterSetId::Sha2_128f => 8,
        ParameterSetId::Sha2_192s => 9,
        ParameterSetId::Sha2_192f => 10,
        ParameterSetId::Sha2_256s => 11,
        ParameterSetId::Sha2_256f => 12,
    }
}

/// The parameter set that a raw integer encodes, if any.
pub open spec fn id_of_code(raw: u32) -> Option<ParameterSetId> {
    if raw == 1 {
        Some(ParameterSetId::Shake128s)
    } else if raw == 2 {
        Some(ParameterSetId::Shake128f)
    } else if raw == 3 {
        Some(ParameterSetId::Shake192s)
    } else if raw == 4 {
        Some(ParameterSetId::Shake192f)
    } else if raw == 5 {
        Some(ParameterSetId::Shake256s)
    } else if raw == 6 {
        Some(ParameterSetId::Shake256f)
    } else if raw == 7 {
        Some(ParameterSetId::Sha2_128s)
    } else if raw == 8 {
        Some(ParameterSetId::Sha2_128f)
    } else if raw == 9 {
        Some(ParameterSetId::Sha2_192s)
    } else if raw == 10 {
        Some(ParameterSetId::Sha2_192f)
    } else if raw == 11 {
        Some(ParameterSetId::Sha2_256s)
    } else if raw == 12 {
        Some(ParameterSetId::Sha2_256f)
    } else {
        None
    }
}

/// Whether a raw integer is the code of some parameter set.
pub open spec fn is_known_code(raw: u32) -> bool {
    1 <= raw <= 12
}

/// The FIPS 205 name of a parameter set.
pub open spec fn name_of(id: ParameterSetId) -> Seq<char> {
    match id {
        ParameterSetId::Shake128s => "SLH-DSA-SHAKE-128s"@,
        ParameterSetId::Shake128f => "SLH-DSA-SHAKE-128f"@,
        ParameterSetId::Shake192s => "SLH-DSA-SHAKE-192s"@,
        ParameterSetId::Shake192f => "SLH-DSA-SHAKE-192f"@,
        ParameterSetId::Shake256s => "SLH-DSA-SHAKE-256s"@,
        ParameterSetId::Shake256f => "SLH-DSA-SHAKE-256f"@,
        ParameterSetId::Sha2_128s => "SLH-DSA-SHA2-128s"@,
        ParameterSetId::Sha2_128f => "SLH-DSA-SHA2-128f"@,
        ParameterSetId::Sha2_192s => "SLH-DSA-SHA2-192s"@,
        ParameterSetId::Sha2_192f => "SLH-DSA-SHA2-192f"@,
        ParameterSetId::Sha2_256s => "SLH-DSA-SHA2-256s"@,
        ParameterSetId::Sha2_256f => "SLH-DSA-SHA2-256f"@,
    }
}

/// The security parameter `n`: the byte length of every seed and hash value.
pub open spec fn n_of(id: ParameterSetId) -> nat {
    match id {
        ParameterSetId::Shake128s | ParameterSetId::Shake128f | ParameterSetId::Sha2_128s
        | ParameterSetId::Sha2_128f => 16,
        ParameterSetId::Shake192s | ParameterSetId::Shake192f | ParameterSetId::Sha2_192s
        | ParameterSetId::Sha2_192f => 24,
        ParameterSetId::Shake256s | ParameterSetId::Shake256f | ParameterSetId::Sha2_256s
        | ParameterSetId::Sha2_256f => 32,
    }
}

/// Byte length of a signing key: `SK.seed || SK.prf || PK.seed || PK.root`.
pub open spec fn sk_len_of(id: ParameterSetId) -> nat {
    4 * n_of(id)
}

/// Byte length of a verifying key: `PK.seed || PK.root`.
pub open spec fn vk_len_of(id: ParameterSetId) -> nat {
    2 * n_of(id)
}

/// Byte length of a signature.
pub open spec fn sig_len_of(id: ParameterSetId) -> nat {
    match id {
        ParameterSetId::Shake128s | ParameterSetId::Sha2_128s => 7856,
        ParameterSetId::Shake128f | ParameterSetId::Sha2_128f => 17088,
        ParameterSetId::Shake192s | ParameterSetId::Sha2_192s => 16224,
        ParameterSetId::Shake192f | ParameterSetId::Sha2_192f => 35664,
        ParameterSetId::Shake256s | ParameterSetId::Sha2_256s => 29792,
        ParameterSetId::Shake256f | ParameterSetId::Sha2_256f => 49856,
    }
}

/// Byte length of the per-signature randomizer: a quarter of the signing key.
pub open spec fn randomizer_len_of(id: ParameterSetId) -> nat {
    sk_len_of(id) / 4
}

/// Number of random bytes that key generation consumes: the three seeds
/// `SK.seed`, `SK.prf` and `PK.seed`, in that order.
pub open spec fn seed_len_of(id: ParameterSetId) -> nat {
    3 * n_of(id)
}

impl ParameterSetId {
    /// The parameter set with the given numeric code, or `None` for a code
    /// outside `1..=12`; no code is ever mapped to a default set.
    pub fn from_u32(value: u32) -> (r: Option<ParameterSetId>)
        ensures
            r == id_of_code(value),
            r is Some <==> is_known_code(value),
            r matches Some(id) ==> code_of(id) == value,
    {
        match value {
            1 => Some(ParameterSetId::Shake128s),
            2 => Some(ParameterSetId::Shake128f),
            3 => Some(ParameterSetId::Shake192s),
            4 => Some(ParameterSetId::Shake192f),
            5 => Some(ParameterSetId::Shake256s),
            6 => Some(ParameterSetId::Shake256f),
            7 => Some(ParameterSetId::Sha2_128s),
            8 => Some(ParameterSetId::Sha2_128f),
            9 => Some(ParameterSetId::Sha2_192s),
            10 => Some(ParameterSetId::Sha2_192f),
            11 => Some(ParameterSetId::Sha2_256s),
            12 => Some(ParameterSetId::Sha2_256f),
            _ => None,
        }
    }

    /// The stable numeric code of this parameter set.
    pub fn to_u32(self) -> (r: u32)
        ensures
            r == code_of(self),
            is_known_code(r),
            id_of_code(r) == Some(self),
    {
        match self {
            ParameterSetId::Shake128s => 1,
            ParameterSetId::Shake128f => 2,
            ParameterSetId::Shake192s => 3,
            ParameterSetId::Shake192f => 4,
            ParameterSetId::Shake256s => 5,
            ParameterSetId::Shake256f => 6,
            ParameterSetId::Sha2_128s => 7,
            ParameterSetId::Sha2_128f => 8,
            ParameterSetId::Sha2_192s => 9,
            ParameterSetId::Sha2_192f => 10,
            ParameterSetId::Sha2_256s => 11,
            ParameterSetId::Sha2_256f => 12,
        }
    }

    /// Human-readable FIPS 205 parameter set name.
    pub fn name(self) -> (r: &'static str)
        ensures
            r@ == name_of(self),
    {
        match self {
            ParameterSetId::Shake128s => "SLH-DSA-SHAKE-128s",
            ParameterSetId::Shake128f => "SLH-DSA-SHAKE-128f",
            ParameterSetId::Shake192s => "SLH-DSA-SHAKE-192s",
            ParameterSetId::Shake192f => "SLH-DSA-SHAKE-192f",
            ParameterSetId::Shake256s => "SLH-DSA-SHAKE-256s",
            ParameterSetId::Shake256f => "SLH-DSA-SHAKE-256f",
            ParameterSetId::Sha2_128s => "SLH-DSA-SHA2-128s",
            ParameterSetId::Sha2_128f => "SLH-DSA-SHA2-128f",
            ParameterSetId::Sha2_192s => "SLH-DSA-SHA2-192s",
            ParameterSetId::Sha2_192f => "SLH-DSA-SHA2-192f",
            ParameterSetId::Sha2_256s => "SLH-DSA-SHA2-256s",
            ParameterSetId::Sha2_256f => "SLH-DSA-SHA2-256f",
        }
    }
}

} // verus!
