//! PGP signature verification options.

use vstd::prelude::*;

verus! {

/// PGP signature verification options, for packages and databases.
#[derive(Debug, Copy, Clone, PartialEq, Eq, Structural)]
pub struct SigLevel {
    /// Require package signatures.
    pub package: bool,
    /// Accept packages without a signature.
    pub package_optional: bool,
    /// Accept package signatures of marginal trust.
    pub package_marginal_ok: bool,
    /// Accept package signatures of unknown trust.
    pub package_unknown_ok: bool,
    /// Require database signatures.
    pub database: bool,
    /// Accept databases without a signature.
    pub database_optional: bool,
    /// Accept database signatures of marginal trust.
    pub database_marginal_ok: bool,
    /// Accept database signatures of unknown trust.
    pub database_unknown_ok: bool,
    /// Use the handle's default signature level.
    pub use_default: bool,
}

impl SigLevel {
    /// The bit mask the native library uses for these flags.
    pub open spec fn spec_to_u32(self) -> u32 {
        (if self.package {
            1u32
        } else {
            0u32
        }) | (if self.package_optional {
            2u32
        } else {
            0u32
        }) | (if self.package_marginal_ok {
            4u32
        } else {
            0u32
        }) | (if self.package_unknown_ok {
            8u32
        } else {
            0u32
        }) | (if self.database {
            1024u32
        } else {
            0u32
        }) | (if self.database_optional {
            2048u32
        } else {
            0u32
        }) | (if self.database_marginal_ok {
            4096u32
        } else {
            0u32
        }) | (if self.database_unknown_ok {
            8192u32
        } else {
            0u32
        }) | (if self.use_default {
            2147483648u32
        } else {
            0u32
        })
    }

    /// The flags encoded by a bit mask.
    pub open spec fn spec_from_u32(x: u32) -> SigLevel {
        SigLevel { package: x & 1 != 0, package_optional: x & 2 != 0, package_marginal_ok: x & 4 != 0, package_unknown_ok: x & 8 != 0, database: x & 1024 != 0, database_optional: x & 2048 != 0, database_marginal_ok: x & 4096 != 0, database_unknown_ok: x & 8192 != 0, use_default: x & 2147483648 != 0 }
    }

    /// Encodes these flags as the native bit mask.
    pub fn to_u32(self) -> (r: u32)
        ensures
            r == self.spec_to_u32(),
    {
        (if self.package {
            1u32
        } else {
            0u32
        }) | (if self.package_optional {
            2u32
        } else {
            0u32
        }) | (if self.package_marginal_ok {
            4u32
        } else {
            0u32
        }) | (if self.package_unknown_ok {
            8u32
        } else {
            0u32
        }) | (if self.database {
            1024u32
        } else {
            0u32
        }) | (if self.database_optional {
            2048u32
        } else {
            0u32
        }) | (if self.database_marginal_ok {
            4096u32
        } else {
            0u32
        }) | (if self.database_unknown_ok {
            8192u32
        } else {
            0u32
        }) | (if self.use_default {
            2147483648u32
        } else {
            0u32
        })
    }

    /// Decodes a native bit mask.
    pub fn from_u32(x: u32) -> (r: SigLevel)
        ensures
            r == SigLevel::spec_from_u32(x),
    {
        SigLevel { package: x & 1 != 0, package_optional: x & 2 != 0, package_marginal_ok: x & 4 != 0, package_unknown_ok: x & 8 != 0, database: x & 1024 != 0, database_optional: x & 2048 != 0, database_marginal_ok: x & 4096 != 0, database_unknown_ok: x & 8192 != 0, use_default: x & 2147483648 != 0 }
    }
}

impl Default for SigLevel {
    fn default() -> (r: SigLevel)
        ensures
            r == (SigLevel { package: false, package_optional: false, package_marginal_ok: false, package_unknown_ok: false, database: false, database_optional: false, database_marginal_ok: false, database_unknown_ok: false, use_default: true }),
    {
        SigLevel { package: false, package_optional: false, package_marginal_ok: false, package_unknown_ok: false, database: false, database_optional: false, database_marginal_ok: false, database_unknown_ok: false, use_default: true }
    }
}

/// Encoding then decoding gives the flags back: each flag has its own bit.
pub proof fn lemma_siglevel_round_trip(u: SigLevel)
    ensures
        SigLevel::spec_from_u32(u.spec_to_u32()) == u,
{
    let v0 = u.package;
    let v1 = u.package_optional;
    let v2 = u.package_marginal_ok;
    let v3 = u.package_unknown_ok;
    let v4 = u.database;
    let v5 = u.database_optional;
    let v6 = u.database_marginal_ok;
    let v7 = u.database_unknown_ok;
    let v8 = u.use_default;
    let x = (if v0 {
        1u32
    } else {
        0u32
    }) | (if v1 {
        2u32
    } else {
        0u32
    }) | (if v2 {
        4u32
    } else {
        0u32
    }) | (if v3 {
        8u32
    } else {
        0u32
    }) | (if v4 {
        1024u32
    } else {
        0u32
    }) | (if v5 {
        2048u32
    } else {
        0u32
    }) | (if v6 {
        4096u32
    } else {
        0u32
    }) | (if v7 {
        8192u32
    } else {
        0u32
    }) | (if v8 {
        2147483648u32
    } else {
        0u32
    });
    assert((x & 1 != 0) == v0 && (x & 2 != 0) == v1 && (x & 4 != 0) == v2 && (x & 8 != 0) == v3 && (x & 1024 != 0) == v4 && (x & 2048 != 0) == v5 && (x & 4096 != 0) == v6 && (x & 8192 != 0) == v7 && (x & 2147483648 != 0) == v8) by (bit_vector)
        requires
            x == (if v0 {
        1u32
    } else {
        0u32
    }) | (if v1 {
        2u32
    } else {
        0u32
    }) | (if v2 {
        4u32
    } else {
        0u32
    }) | (if v3 {
        8u32
    } else {
        0u32
    }) | (if v4 {
        1024u32
    } else {
        0u32
    }) | (if v5 {
        2048u32
    } else {
        0u32
    }) | (if v6 {
        4096u32
    } else {
        0u32
    }) | (if v7 {
        8192u32
    } else {
        0u32
    }) | (if v8 {
        2147483648u32
    } else {
        0u32
    }),
    ;
}

} // verus!
