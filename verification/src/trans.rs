//! Transactions: the flags that configure one.

use vstd::prelude::*;

verus! {

/// Configuration options for a transaction.
#[derive(Debug, Copy, Clone, PartialEq, Eq, Structural)]
pub struct TransactionFlags {
    /// Ignore dependency checks.
    pub no_deps: bool,
    /// Ignore file conflicts and overwrite files.
    pub force: bool,
    /// Delete files even if they are tagged as backup.
    pub no_save: bool,
    /// Ignore version numbers when checking dependencies.
    pub no_dep_version: bool,
    /// Remove also any packages depending on a package being removed.
    pub cascade: bool,
    /// Remove packages and their unneeded deps (not explicitly installed).
    pub recurse: bool,
    /// Modify database but do not commit changes to filesystem.
    pub db_only: bool,
    /// Mark all installed packages as dependencies.
    pub all_deps: bool,
    /// Only download packages and do not actually install.
    pub download_only: bool,
    /// Do not execute install scriptlets after installing.
    pub no_scriptlet: bool,
    /// Ignore dependency conflicts.
    pub no_conflicts: bool,
    /// Do not install a package if it is already installed and up to date.
    pub needed: bool,
    /// Mark all installed packages as explicitly requested.
    pub all_explicit: bool,
    /// Do not remove a package if it is needed by another one.
    pub unneeded: bool,
    /// Remove also explicitly installed unneeded deps (use with `recurse`).
    pub recurse_all: bool,
    /// Do not lock the database during the operation.
    pub no_lock: bool,
}

impl TransactionFlags {
    /// The bit mask the native library uses for these flags.
    pub open spec fn spec_to_u32(self) -> u32 {
        (if self.no_deps {
            1u32
        } else {
            0u32
        }) | (if self.force {
            2u32
        } else {
            0u32
        }) | (if self.no_save {
            4u32
        } else {
            0u32
        }) | (if self.no_dep_version {
            8u32
        } else {
            0u32
        }) | (if self.cascade {
            16u32
        } else {
            0u32
        }) | (if self.recurse {
            32u32
        } else {
            0u32
        }) | (if self.db_only {
            64u32
        } else {
            0u32
        }) | (if self.all_deps {
            256u32
        } else {
            0u32
        }) | (if self.download_only {
            512u32
        } else {
            0u32
        }) | (if self.no_scriptlet {
            1024u32
        } else {
            0u32
        }) | (if self.no_conflicts {
            2048u32
        } else {
            0u32
        }) | (if self.needed {
            8192u32
        } else {
            0u32
        }) | (if self.all_explicit {
            16384u32
        } else {
            0u32
        }) | (if self.unneeded {
            32768u32
        } else {
            0u32
        }) | (if self.recurse_all {
            65536u32
        } else {
            0u32
        }) | (if self.no_lock {
            131072u32
        } else {
            0u32
        })
    }

    /// The flags encoded by a bit mask.
    pub open spec fn spec_from_u32(x: u32) -> TransactionFlags {
        TransactionFlags {
            no_deps: x & 1 != 0,
            force: x & 2 != 0,
            no_save: x & 4 != 0,
            no_dep_version: x & 8 != 0,
            cascade: x & 16 != 0,
            recurse: x & 32 != 0,
            db_only: x & 64 != 0,
            all_deps: x & 256 != 0,
            download_only: x & 512 != 0,
            no_scriptlet: x & 1024 != 0,
            no_conflicts: x & 2048 != 0,
            needed: x & 8192 != 0,
            all_explicit: x & 16384 != 0,
            unneeded: x & 32768 != 0,
            recurse_all: x & 65536 != 0,
            no_lock: x & 131072 != 0,
        }
    }

    /// Encodes these flags as the native bit mask.
    pub fn to_u32(self) -> (r: u32)
        ensures
            r == self.spec_to_u32(),
    {
        (if self.no_deps {
            1u32
        } else {
            0u32
        }) | (if self.force {
            2u32
        } else {
            0u32
        }) | (if self.no_save {
            4u32
        } else {
            0u32
        }) | (if self.no_dep_version {
            8u32
        } else {
            0u32
        }) | (if self.cascade {
            16u32
        } else {
            0u32
        }) | (if self.recurse {
            32u32
        } else {
            0u32
        }) | (if self.db_only {
            64u32
        } else {
            0u32
        }) | (if self.all_deps {
            256u32
        } else {
            0u32
        }) | (if self.download_only {
            512u32
        } else {
            0u32
        }) | (if self.no_scriptlet {
            1024u32
        } else {
            0u32
        }) | (if self.no_conflicts {
            2048u32
        } else {
            0u32
        }) | (if self.needed {
            8192u32
        } else {
            0u32
        }) | (if self.all_explicit {
            16384u32
        } else {
            0u32
        }) | (if self.unneeded {
            32768u32
        } else {
            0u32
        }) | (if self.recurse_all {
            65536u32
        } else {
            0u32
        }) | (if self.no_lock {
            131072u32
        } else {
            0u32
        })
    }

    /// Decodes a native bit mask.
    pub fn from_u32(x: u32) -> (r: TransactionFlags)
        ensures
            r == TransactionFlags::spec_from_u32(x),
    {
        TransactionFlags {
            no_deps: x & 1 != 0,
            force: x & 2 != 0,
            no_save: x & 4 != 0,
            no_dep_version: x & 8 != 0,
            cascade: x & 16 != 0,
            recurse: x & 32 != 0,
            db_only: x & 64 != 0,
            all_deps: x & 256 != 0,
            download_only: x & 512 != 0,
            no_scriptlet: x & 1024 != 0,
            no_conflicts: x & 2048 != 0,
            needed: x & 8192 != 0,
            all_explicit: x & 16384 != 0,
            unneeded: x & 32768 != 0,
            recurse_all: x & 65536 != 0,
            no_lock: x & 131072 != 0,
        }
    }
}

impl Default for TransactionFlags {
    fn default() -> (r: TransactionFlags)
        ensures
            r == (TransactionFlags {
    no_deps: false,
    force: false,
    no_save: false,
    no_dep_version: false,
    cascade: false,
    recurse: false,
    db_only: false,
    all_deps: false,
    download_only: false,
    no_scriptlet: false,
    no_conflicts: false,
    needed: false,
    all_explicit: false,
    unneeded: false,
    recurse_all: false,
    no_lock: false,
}),
    {
        TransactionFlags {
            no_deps: false,
            force: false,
            no_save: false,
            no_dep_version: false,
            cascade: false,
            recurse: false,
            db_only: false,
            all_deps: false,
            download_only: false,
            no_scriptlet: false,
            no_conflicts: false,
            needed: false,
            all_explicit: false,
            unneeded: false,
            recurse_all: false,
            no_lock: false,
        }
    }
}

/// Encoding then decoding gives the flags back: each flag has its own bit.
#[verifier::rlimit(100)]
pub proof fn lemma_transactionflags_round_trip(u: TransactionFlags)
    ensures
        TransactionFlags::spec_from_u32(u.spec_to_u32()) == u,
{
    let v0 = u.no_deps;
    let v1 = u.force;
    let v2 = u.no_save;
    let v3 = u.no_dep_version;
    let v4 = u.cascade;
    let v5 = u.recurse;
    let v6 = u.db_only;
    let v7 = u.all_deps;
    let v8 = u.download_only;
    let v9 = u.no_scriptlet;
    let v10 = u.no_conflicts;
    let v11 = u.needed;
    let v12 = u.all_explicit;
    let v13 = u.unneeded;
    let v14 = u.recurse_all;
    let v15 = u.no_lock;
    let x = (if v0 {
        1u32
    } else {
        0u32
    }) | (if v1 {
        2u32
    } else {
        0u32
    }) | (if v2 {
        4u32
    } else {
        0u32
    }) | (if v3 {
        8u32
    } else {
        0u32
    }) | (if v4 {
        16u32
    } else {
        0u32
    }) | (if v5 {
        32u32
    } else {
        0u32
    }) | (if v6 {
        64u32
    } else {
        0u32
    }) | (if v7 {
        256u32
    } else {
        0u32
    }) | (if v8 {
        512u32
    } else {
        0u32
    }) | (if v9 {
        1024u32
    } else {
        0u32
    }) | (if v10 {
        2048u32
    } else {
        0u32
    }) | (if v11 {
        8192u32
    } else {
        0u32
    }) | (if v12 {
        16384u32
    } else {
        0u32
    }) | (if v13 {
        32768u32
    } else {
        0u32
    }) | (if v14 {
        65536u32
    } else {
        0u32
    }) | (if v15 {
        131072u32
    } else {
        0u32
    });
    assert((x & 1 != 0) == v0 && (x & 2 != 0) == v1 && (x & 4 != 0) == v2 && (x & 8 != 0) == v3) by (bit_vector)
        requires
            x == (if v0 {
        1u32
    } else {
        0u32
    }) | (if v1 {
        2u32
    } else {
        0u32
    }) | (if v2 {
        4u32
    } else {
        0u32
    }) | (if v3 {
        8u32
    } else {
        0u32
    }) | (if v4 {
        16u32
    } else {
        0u32
    }) | (if v5 {
        32u32
    } else {
        0u32
    }) | (if v6 {
        64u32
    } else {
        0u32
    }) | (if v7 {
        256u32
    } else {
        0u32
    }) | (if v8 {
        512u32
    } else {
        0u32
    }) | (if v9 {
        1024u32
    } else {
        0u32
    }) | (if v10 {
        2048u32
    } else {
        0u32
    }) | (if v11 {
        8192u32
    } else {
        0u32
    }) | (if v12 {
        16384u32
    } else {
        0u32
    }) | (if v13 {
        32768u32
    } else {
        0u32
    }) | (if v14 {
        65536u32
    } else {
        0u32
    }) | (if v15 {
        131072u32
    } else {
        0u32
    }),
    ;
    assert((x & 16 != 0) == v4 && (x & 32 != 0) == v5 && (x & 64 != 0) == v6 && (x & 256 != 0) == v7) by (bit_vector)
        requires
            x == (if v0 {
        1u32
    } else {
        0u32
    }) | (if v1 {
        2u32
    } else {
        0u32
    }) | (if v2 {
        4u32
    } else {
        0u32
    }) | (if v3 {
        8u32
    } else {
        0u32
    }) | (if v4 {
        16u32
    } else {
        0u32
    }) | (if v5 {
        32u32
    } else {
        0u32
    }) | (if v6 {
        64u32
    } else {
        0u32
    }) | (if v7 {
        256u32
    } else {
        0u32
    }) | (if v8 {
        512u32
    } else {
        0u32
    }) | (if v9 {
        1024u32
    } else {
        0u32
    }) | (if v10 {
        2048u32
    } else {
        0u32
    }) | (if v11 {
        8192u32
    } else {
        0u32
    }) | (if v12 {
        16384u32
    } else {
        0u32
    }) | (if v13 {
        32768u32
    } else {
        0u32
    }) | (if v14 {
        65536u32
    } else {
        0u32
    }) | (if v15 {
        131072u32
    } else {
        0u32
    }),
    ;
    assert((x & 512 != 0) == v8 && (x & 1024 != 0) == v9 && (x & 2048 != 0) == v10 && (x & 8192 != 0) == v11) by (bit_vector)
        requires
            x == (if v0 {
        1u32
    } else {
        0u32
    }) | (if v1 {
        2u32
    } else {
        0u32
    }) | (if v2 {
        4u32
    } else {
        0u32
    }) | (if v3 {
        8u32
    } else {
        0u32
    }) | (if v4 {
        16u32
    } else {
        0u32
    }) | (if v5 {
        32u32
    } else {
        0u32
    }) | (if v6 {
        64u32
    } else {
        0u32
    }) | (if v7 {
        256u32
    } else {
        0u32
    }) | (if v8 {
        512u32
    } else {
        0u32
    }) | (if v9 {
        1024u32
    } else {
        0u32
    }) | (if v10 {
        2048u32
    } else {
        0u32
    }) | (if v11 {
        8192u32
    } else {
        0u32
    }) | (if v12 {
        16384u32
    } else {
        0u32
    }) | (if v13 {
        32768u32
    } else {
        0u32
    }) | (if v14 {
        65536u32
    } else {
        0u32
    }) | (if v15 {
        131072u32
    } else {
        0u32
    }),
    ;
    assert((x & 16384 != 0) == v12 && (x & 32768 != 0) == v13 && (x & 65536 != 0) == v14 && (x & 131072 != 0) == v15) by (bit_vector)
        requires
            x == (if v0 {
        1u32
    } else {
        0u32
    }) | (if v1 {
        2u32
    } else {
        0u32
    }) | (if v2 {
        4u32
    } else {
        0u32
    }) | (if v3 {
        8u32
    } else {
        0u32
    }) | (if v4 {
        16u32
    } else {
        0u32
    }) | (if v5 {
        32u32
    } else {
        0u32
    }) | (if v6 {
        64u32
    } else {
        0u32
    }) | (if v7 {
        256u32
    } else {
        0u32
    }) | (if v8 {
        512u32
    } else {
        0u32
    }) | (if v9 {
        1024u32
    } else {
        0u32
    }) | (if v10 {
        2048u32
    } else {
        0u32
    }) | (if v11 {
        8192u32
    } else {
        0u32
    }) | (if v12 {
        16384u32
    } else {
        0u32
    }) | (if v13 {
        32768u32
    } else {
        0u32
    }) | (if v14 {
        65536u32
    } else {
        0u32
    }) | (if v15 {
        131072u32
    } else {
        0u32
    }),
    ;
}

} // verus!
