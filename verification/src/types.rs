//! Capabilities of the native library, and download outcomes.

use vstd::prelude::*;

verus! {

/// Which optional capabilities this build of the native library has.
#[derive(Debug, Copy, Clone, PartialEq, Eq, Structural)]
pub struct Caps {
    /// Native language support.
    pub nls: bool,
    /// A built-in downloader.
    pub downloader: bool,
    /// Signature checking.
    pub signatures: bool,
}

impl Caps {
    /// The bit mask the native library uses for these flags.
    pub open spec fn spec_to_u32(self) -> u32 {
        (if self.nls {
            1u32
        } else {
            0u32
        }) | (if self.downloader {
            2u32
        } else {
            0u32
        }) | (if self.signatures {
            4u32
        } else {
            0u32
        })
    }

    /// The flags encoded by a bit mask.
    pub open spec fn spec_from_u32(x: u32) -> Caps {
        Caps { nls: x & 1 != 0, downloader: x & 2 != 0, signatures: x & 4 != 0 }
    }

    /// Encodes these flags as the native bit mask.
    pub fn to_u32(self) -> (r: u32)
        ensures
            r == self.spec_to_u32(),
    {
        (if self.nls {
            1u32
        } else {
            0u32
        }) | (if self.downloader {
            2u32
        } else {
            0u32
        }) | (if self.signatures {
            4u32
        } else {
            0u32
        })
    }

    /// Decodes a native bit mask.
    pub fn from_u32(x: u32) -> (r: Caps)
        ensures
            r == Caps::spec_from_u32(x),
    {
        Caps { nls: x & 1 != 0, downloader: x & 2 != 0, signatures: x & 4 != 0 }
    }
}

/// Encoding then decoding gives the flags back: each flag has its own bit.
pub proof fn lemma_caps_round_trip(u: Caps)
    ensures
        Caps::spec_from_u32(u.spec_to_u32()) == u,
{
    let v0 = u.nls;
    let v1 = u.downloader;
    let v2 = u.signatures;
    let x = (if v0 {
        1u32
    } else {
        0u32
    }) | (if v1 {
        2u32
    } else {
        0u32
    }) | (if v2 {
        4u32
    } else {
        0u32
    });
    assert((x & 1 != 0) == v0 && (x & 2 != 0) == v1 && (x & 4 != 0) == v2) by (bit_vector)
        requires
            x == (if v0 {
        1u32
    } else {
        0u32
    }) | (if v1 {
        2u32
    } else {
        0u32
    }) | (if v2 {
        4u32
    } else {
        0u32
    }),
    ;
}

/// The result of a download, as a fetch callback reports it.
#[derive(Debug, Copy, Clone, PartialEq, Eq, Structural)]
pub enum DownloadResult {
    /// The download succeeded.
    Success,
    /// The download was not needed.
    NotNeeded,
    /// The download failed.
    Failed,
}

impl DownloadResult {
    /// The code a fetch callback returns to the native library: 0 for a
    /// completed download, 1 when none was needed, -1 on failure.
    pub fn code(self) -> (r: i32)
        ensures
            self == DownloadResult::Success ==> r == 0,
            self == DownloadResult::NotNeeded ==> r == 1,
            self == DownloadResult::Failed ==> r == -1,
    {
        match self {
            DownloadResult::Success => 0,
            DownloadResult::NotNeeded => 1,
            DownloadResult::Failed => -1,
        }
    }
}

} // verus!
