//! Protocol versions: a major and a minor number, packed into the low two
//! bytes of a word.

use vstd::prelude::*;
use vstd::std_specs::convert::FromSpecImpl;

verus! {

/// The first word a client sends.
pub const WORKER_MAGIC_1: u64 = 0x6e697863;

/// The first word a server sends.
pub const WORKER_MAGIC_2: u64 = 0x6478696f;

/// The version of the protocol that this server speaks: 1.34.
pub const PROTOCOL_VERSION: u64 = 0x0122;

/// The oldest client version that is served: 1.10.
pub const MIN_CLIENT_VERSION: u64 = 0x010a;

/// A protocol version.
#[derive(Clone, Copy, Debug, PartialEq, Eq, Structural)]
pub struct DaemonVersion {
    pub major: u8,
    pub minor: u8,
}

/// The minor number in a version word: its lowest byte.
pub open spec fn minor_of(version: u64) -> u8 {
    (version & 0xff) as u8
}

/// The major number in a version word: its second byte.
pub open spec fn major_of(version: u64) -> u8 {
    ((version >> 8) & 0xff) as u8
}

impl DaemonVersion {
    /// The version that the low two bytes of `x` hold.
    pub open spec fn unpack(x: u64) -> DaemonVersion {
        DaemonVersion { major: major_of(x), minor: minor_of(x) }
    }

    /// The word that holds this version.
    pub open spec fn pack(self) -> u64 {
        ((self.major as u64) << 8) | self.minor as u64
    }
}

impl From<u64> for DaemonVersion {
    fn from(x: u64) -> (v: DaemonVersion) {
        let major = ((x >> 8) & 0xff) as u8;
        let minor = (x & 0xff) as u8;
        DaemonVersion { major, minor }
    }
}

impl FromSpecImpl<u64> for DaemonVersion {
    open spec fn obeys_from_spec() -> bool {
        true
    }

    open spec fn from_spec(x: u64) -> DaemonVersion {
        DaemonVersion::unpack(x)
    }
}

impl From<DaemonVersion> for u64 {
    fn from(v: DaemonVersion) -> (x: u64) {
        ((v.major as u64) << 8) | v.minor as u64
    }
}

impl FromSpecImpl<DaemonVersion> for u64 {
    open spec fn obeys_from_spec() -> bool {
        true
    }

    open spec fn from_spec(v: DaemonVersion) -> u64 {
        v.pack()
    }
}

/// Packing a version and unpacking it again gives the same version, and a
/// word that is unpacked and packed again keeps its low two bytes.
pub proof fn lemma_version_round_trip(v: DaemonVersion, x: u64)
    ensures
        DaemonVersion::unpack(v.pack()) == v,
        DaemonVersion::unpack(x).pack() == x & 0xffff,
        (DaemonVersion { major: 1, minor: 34 }).pack() == PROTOCOL_VERSION,
{
    let major = v.major;
    let minor = v.minor;
    assert(((((major as u64) << 8) | minor as u64) >> 8) & 0xff == major as u64) by (bit_vector);
    assert((((major as u64) << 8) | minor as u64) & 0xff == minor as u64) by (bit_vector);
    assert(((((x >> 8) & 0xff) as u8 as u64) << 8) | ((x & 0xff) as u8 as u64) == x & 0xffff)
        by (bit_vector);
    assert(((1u8 as u64) << 8) | 34u8 as u64 == 0x0122) by (bit_vector);
}

} // verus!
