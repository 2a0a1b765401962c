//! The byte that starts a packet.

use vstd::prelude::*;
use vstd::std_specs::convert::FromSpecImpl;
use crate::consts::{STX_V1, STX_V2};
use crate::types::MavLinkVersion;

verus! {

/// Start-of-packet marker. A receiver skips whatever does not start with a marker it knows.
#[derive(Clone, Copy, Debug, PartialEq, Eq, Structural)]
pub enum MavSTX {
    /// Marker of `MAVLink 1`.
    V1,
    /// Marker of `MAVLink 2`.
    V2,
    /// Any other byte.
    Unknown(u8),
}

/// The marker that a byte stands for.
pub open spec fn stx_of_byte(value: u8) -> MavSTX {
    if value == STX_V1 {
        MavSTX::V1
    } else if value == STX_V2 {
        MavSTX::V2
    } else {
        MavSTX::Unknown(value)
    }
}

/// The byte that starts a packet of the given version.
pub open spec fn stx_byte(version: MavLinkVersion) -> u8 {
    match version {
        MavLinkVersion::V1 => STX_V1,
        MavLinkVersion::V2 => STX_V2,
    }
}

/// The protocol version that a byte announces, if it announces one.
pub open spec fn version_of_byte(value: u8) -> Option<MavLinkVersion> {
    if value == STX_V1 {
        Some(MavLinkVersion::V1)
    } else if value == STX_V2 {
        Some(MavLinkVersion::V2)
    } else {
        None
    }
}

impl MavSTX {
    /// The byte of this marker.
    pub open spec fn spec_byte(self) -> u8 {
        match self {
            MavSTX::V1 => STX_V1,
            MavSTX::V2 => STX_V2,
            MavSTX::Unknown(unknown) => unknown,
        }
    }

    /// The protocol version of this marker.
    pub open spec fn spec_version(self) -> Option<MavLinkVersion> {
        match self {
            MavSTX::V1 => Some(MavLinkVersion::V1),
            MavSTX::V2 => Some(MavLinkVersion::V2),
            MavSTX::Unknown(_) => None,
        }
    }

    /// Whether a byte starts a packet of either protocol version.
    pub fn is_magic_byte(value: u8) -> (b: bool)
        ensures
            b == (version_of_byte(value) is Some),
    {
        value == STX_V1 || value == STX_V2
    }

    /// The protocol version of this marker, if it has one.
    pub fn to_mavlink_version(&self) -> (v: Option<MavLinkVersion>)
        ensures
            v == self.spec_version(),
    {
        match self {
            MavSTX::V1 => Some(MavLinkVersion::V1),
            MavSTX::V2 => Some(MavLinkVersion::V2),
            MavSTX::Unknown(_) => None,
        }
    }

    /// The byte of this marker.
    pub fn to_byte(self) -> (b: u8)
        ensures
            b == self.spec_byte(),
    {
        match self {
            MavSTX::V1 => STX_V1,
            MavSTX::V2 => STX_V2,
            MavSTX::Unknown(unknown) => unknown,
        }
    }
}

impl Default for MavSTX {
    /// An unknown protocol with a zero marker.
    fn default() -> (stx: MavSTX)
        ensures
            stx == MavSTX::Unknown(0),
    {
        MavSTX::Unknown(0)
    }
}

impl From<u8> for MavSTX {
    fn from(value: u8) -> (stx: MavSTX) {
        if value == STX_V1 {
            MavSTX::V1
        } else if value == STX_V2 {
            MavSTX::V2
        } else {
            MavSTX::Unknown(value)
        }
    }
}

impl FromSpecImpl<u8> for MavSTX {
    open spec fn obeys_from_spec() -> bool {
        true
    }

    open spec fn from_spec(value: u8) -> MavSTX {
        stx_of_byte(value)
    }
}

impl From<MavLinkVersion> for MavSTX {
    fn from(value: MavLinkVersion) -> (stx: MavSTX) {
        match value {
            MavLinkVersion::V1 => MavSTX::V1,
            MavLinkVersion::V2 => MavSTX::V2,
        }
    }
}

impl FromSpecImpl<MavLinkVersion> for MavSTX {
    open spec fn obeys_from_spec() -> bool {
        true
    }

    open spec fn from_spec(value: MavLinkVersion) -> MavSTX {
        match value {
            MavLinkVersion::V1 => MavSTX::V1,
            MavLinkVersion::V2 => MavSTX::V2,
        }
    }
}

impl From<MavSTX> for u8 {
    fn from(value: MavSTX) -> (byte: u8) {
        value.to_byte()
    }
}

impl FromSpecImpl<MavSTX> for u8 {
    open spec fn obeys_from_spec() -> bool {
        true
    }

    open spec fn from_spec(value: MavSTX) -> u8 {
        value.spec_byte()
    }
}

impl From<MavSTX> for Option<MavLinkVersion> {
    fn from(value: MavSTX) -> (version: Option<MavLinkVersion>) {
        value.to_mavlink_version()
    }
}

impl FromSpecImpl<MavSTX> for Option<MavLinkVersion> {
    open spec fn obeys_from_spec() -> bool {
        true
    }

    open spec fn from_spec(value: MavSTX) -> Option<MavLinkVersion> {
        value.spec_version()
    }
}

/// A byte and the marker made from it stand for each other, and the byte that starts a packet
/// of a version announces that version.
pub proof fn lemma_stx_round_trip(value: u8, version: MavLinkVersion)
    ensures
        stx_of_byte(value).spec_byte() == value,
        stx_of_byte(value).spec_version() == version_of_byte(value),
        version_of_byte(stx_byte(version)) == Some(version),
{
}

} // verus!
