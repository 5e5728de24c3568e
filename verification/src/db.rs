//! Databases and what they may be used for.

use vstd::prelude::*;

verus! {

/// What a sync database may be used for, one flag per operation.
#[derive(Debug, Copy, Clone, PartialEq, Eq, Structural)]
pub struct Usage {
    pub sync: bool,
    pub search: bool,
    pub install: bool,
    pub upgrade: bool,
}

impl Usage {
    /// The bit mask the native library uses for this usage.
    pub open spec fn spec_to_u32(self) -> u32 {
        (if self.sync {
            1u32
        } else {
            0u32
        }) | (if self.search {
            2u32
        } else {
            0u32
        }) | (if self.install {
            4u32
        } else {
            0u32
        }) | (if self.upgrade {
            8u32
        } else {
            0u32
        })
    }

    /// The usage encoded by a bit mask.
    pub open spec fn spec_from_u32(x: u32) -> Usage {
        Usage { sync: x & 1 != 0, search: x & 2 != 0, install: x & 4 != 0, upgrade: x & 8 != 0 }
    }

    /// Sync only.
    pub fn sync() -> (r: Usage)
        ensures
            r == (Usage { sync: true, search: false, install: false, upgrade: false }),
    {
        Usage { sync: true, search: false, install: false, upgrade: false }
    }

    /// Search only.
    pub fn search() -> (r: Usage)
        ensures
            r == (Usage { sync: false, search: true, install: false, upgrade: false }),
    {
        Usage { sync: false, search: true, install: false, upgrade: false }
    }

    /// Install only.
    pub fn install() -> (r: Usage)
        ensures
            r == (Usage { sync: false, search: false, install: true, upgrade: false }),
    {
        Usage { sync: false, search: false, install: true, upgrade: false }
    }

    /// Upgrade only.
    pub fn upgrade() -> (r: Usage)
        ensures
            r == (Usage { sync: false, search: false, install: false, upgrade: true }),
    {
        Usage { sync: false, search: false, install: false, upgrade: true }
    }

    /// Every use at once.
    pub fn all() -> (r: Usage)
        ensures
            r == (Usage { sync: true, search: true, install: true, upgrade: true }),
    {
        Usage { sync: true, search: true, install: true, upgrade: true }
    }

    /// Encodes this usage as the native bit mask.
    pub fn to_u32(self) -> (r: u32)
        ensures
            r == self.spec_to_u32(),
    {
        (if self.sync {
            1u32
        } else {
            0u32
        }) | (if self.search {
            2u32
        } else {
            0u32
        }) | (if self.install {
            4u32
        } else {
            0u32
        }) | (if self.upgrade {
            8u32
        } else {
            0u32
        })
    }

    /// Decodes a native bit mask.
    pub fn from_u32(x: u32) -> (r: Usage)
        ensures
            r == Usage::spec_from_u32(x),
    {
        Usage { sync: x & 1 != 0, search: x & 2 != 0, install: x & 4 != 0, upgrade: x & 8 != 0 }
    }
}

impl Default for Usage {
    /// No use at all.
    fn default() -> (r: Usage)
        ensures
            r == (Usage { sync: false, search: false, install: false, upgrade: false }),
    {
        Usage { sync: false, search: false, install: false, upgrade: false }
    }
}

/// Encoding then decoding a usage gives it back: the four flags land on
/// distinct bits.
pub proof fn lemma_usage_round_trip(u: Usage)
    ensures
        Usage::spec_from_u32(u.spec_to_u32()) == u,
{
    let s = u.sync;
    let e = u.search;
    let i = u.install;
    let g = u.upgrade;
    let x = (if s {
        1u32
    } else {
        0u32
    }) | (if e {
        2u32
    } else {
        0u32
    }) | (if i {
        4u32
    } else {
        0u32
    }) | (if g {
        8u32
    } else {
        0u32
    });
    assert((x & 1 != 0) == s && (x & 2 != 0) == e && (x & 4 != 0) == i && (x & 8 != 0) == g) by (bit_vector)
        requires
            x == (if s {
                1u32
            } else {
                0u32
            }) | (if e {
                2u32
            } else {
                0u32
            }) | (if i {
                4u32
            } else {
                0u32
            }) | (if g {
                8u32
            } else {
                0u32
            }),
    ;
}

/// A model of one package database: its name, its mirror list, and what it
/// may be used for. (The native handle's own state stays with the native
/// library; this value carries what the configuration layer reads and
/// writes.)
#[derive(Debug, PartialEq, Eq, Clone)]
pub struct Db {
    pub name: String,
    pub servers: Vec<String>,
    pub usage: Usage,
}

impl Db {
    pub fn new(name: String) -> (r: Db)
        ensures
            r.name == name,
            r.servers@.len() == 0,
            r.usage == (Usage { sync: true, search: true, install: true, upgrade: true }),
    {
        Db { name, servers: Vec::new(), usage: Usage::all() }
    }
}

} // verus!
