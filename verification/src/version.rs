//! Plugin API versioning: a version word packed into 64 bits, and the
//! validation that rejects plugins whose version is incompatible with the
//! host.

use vstd::prelude::*;

verus! {

/// A plugin API version: four bytes (reserved, major, minor, patch) packed
/// into the low 32 bits of a 64-bit word, most significant first.
#[derive(Debug, Clone, Copy, PartialEq, Eq, Structural)]
pub struct RuntimeAPIVersion {
    /// Reserved for future use, must be 0.
    pub reserved: u8,
    /// Major version of the API.
    pub major: u8,
    /// Minor version of the API.
    pub minor: u8,
    /// Patch version of the API.
    pub patch: u8,
}

/// The major version of the plugin API that this host implements.
pub const CURRENT_API_MAJOR: u8 = 0;

/// The minor version of the plugin API that this host implements.
pub const CURRENT_API_MINOR: u8 = 3;

/// The patch version of the plugin API that this host implements.
pub const CURRENT_API_PATCH: u8 = 0;

/// The version of the plugin API that this host implements.
pub fn current_api_version() -> (r: RuntimeAPIVersion)
    ensures
        r == current_api_version_spec(),
{
    RuntimeAPIVersion {
        reserved: 0,
        major: CURRENT_API_MAJOR,
        minor: CURRENT_API_MINOR,
        patch: CURRENT_API_PATCH,
    }
}

/// The version of the plugin API that this host implements.
pub open spec fn current_api_version_spec() -> RuntimeAPIVersion {
    RuntimeAPIVersion {
        reserved: 0,
        major: CURRENT_API_MAJOR,
        minor: CURRENT_API_MINOR,
        patch: CURRENT_API_PATCH,
    }
}

impl RuntimeAPIVersion {
    /// The packed form of this version: reserved in bits 24..32, major in
    /// 16..24, minor in 8..16, patch in 0..8.
    pub open spec fn packed_spec(self) -> int {
        (self.reserved as u64) * 0x1000000
            + (self.major as u64) * 0x10000
            + (self.minor as u64) * 0x100
            + (self.patch as u64)
    }

    /// The version that a packed word denotes: each byte read out of its
    /// position, the bits above the reserved byte ignored.
    pub open spec fn decode_spec(value: u64) -> RuntimeAPIVersion {
        RuntimeAPIVersion {
            reserved: ((value / 0x1000000) % 0x100) as u8,
            major: ((value / 0x10000) % 0x100) as u8,
            minor: ((value / 0x100) % 0x100) as u8,
            patch: (value % 0x100) as u8,
        }
    }

    /// Decode a packed version word.
    pub fn from_word(value: u64) -> (r: RuntimeAPIVersion)
        ensures
            r == RuntimeAPIVersion::decode_spec(value),
            r.packed_spec() == value % 0x100000000,
    {
        proof {
            assert((value >> 24) & 255 == (value / 0x1000000) % 0x100) by (bit_vector);
            assert((value >> 16) & 255 == (value / 0x10000) % 0x100) by (bit_vector);
            assert((value >> 8) & 255 == (value / 0x100) % 0x100) by (bit_vector);
            assert(value & 255 == value % 0x100) by (bit_vector);
            assert(((value / 0x1000000) % 0x100) * 0x1000000 + ((value / 0x10000) % 0x100)
                * 0x10000 + ((value / 0x100) % 0x100) * 0x100 + (value % 0x100) == value
                % 0x100000000) by (bit_vector);
        }
        RuntimeAPIVersion {
            reserved: ((value >> 24) & 255) as u8,
            major: ((value >> 16) & 255) as u8,
            minor: ((value >> 8) & 255) as u8,
            patch: (value & 255) as u8,
        }
    }

    /// Pack this version into a 64-bit word.
    pub fn to_word(self) -> (r: u64)
        ensures
            r == self.packed_spec(),
    {
        let a = self.reserved;
        let b = self.major;
        let c = self.minor;
        let d = self.patch;
        proof {
            assert(((a as u64) << 24) | ((b as u64) << 16) | ((c as u64) << 8) | (d as u64) == (
            a as u64) * 0x1000000 + (b as u64) * 0x10000 + (c as u64) * 0x100 + (
            d as u64)) by (bit_vector);
        }
        ((a as u64) << 24) | ((b as u64) << 16) | ((c as u64) << 8) | (d as u64)
    }

    /// Whether this version is accepted by the host: the reserved byte must be
    /// zero, and major and minor must match the host's exactly; the patch byte
    /// is ignored.
    pub open spec fn compatible_spec(self) -> bool {
        self.reserved == 0 && self.major == CURRENT_API_MAJOR && self.minor
            == CURRENT_API_MINOR
    }

    /// The version gate: reject a reserved byte other than zero and any
    /// major or minor difference from the host; accept patch differences.
    pub fn validate(&self) -> (r: Result<(), crate::loader::LoadError>)
        ensures
            r is Ok <==> self.compatible_spec(),
            r matches Err(e) ==> e == crate::loader::LoadError::IncompatibleVersion(*self),
    {
        if self.reserved != 0 {
            return Err(crate::loader::LoadError::IncompatibleVersion(*self));
        }
        if self.major != CURRENT_API_MAJOR {
            return Err(crate::loader::LoadError::IncompatibleVersion(*self));
        }
        if self.minor != CURRENT_API_MINOR {
            return Err(crate::loader::LoadError::IncompatibleVersion(*self));
        }
        Ok(())
    }
}

/// The version gate in full: a plugin whose major or minor version differs
/// from the host's, or whose reserved byte is not zero, fails validation with
/// `IncompatibleVersion`; a version that differs from the host's in the patch
/// byte alone validates successfully.
pub proof fn lemma_version_gate(v: RuntimeAPIVersion)
    ensures
        (v.major != CURRENT_API_MAJOR || v.minor != CURRENT_API_MINOR) ==> !v.compatible_spec(),
        (v.reserved == 0 && v.major == CURRENT_API_MAJOR && v.minor == CURRENT_API_MINOR)
            ==> v.compatible_spec(),
        v.compatible_spec() <==> (v == RuntimeAPIVersion {
            patch: v.patch,
            ..current_api_version_spec()
        }),
{
}

} // verus!
