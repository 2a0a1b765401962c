//! Basic protocol types.

use vstd::prelude::*;
use crate::consts::{
    HEADER_V1_SIZE, HEADER_V2_SIZE, SIGNATURE_LENGTH, SIGNATURE_TIMESTAMP_LENGTH,
    SIGNATURE_VALUE_LENGTH,
};

verus! {

/// Identifier of a message within a dialect (24 bits are used on the wire).
pub type MessageId = u32;

/// Per-message salt that is fed into the checksum after header and payload.
pub type CrcExtra = u8;

/// Identifier of a system (vehicle, ground station).
pub type SystemId = u8;

/// Identifier of a component within a system.
pub type ComponentId = u8;

/// Frame sequence number, wraps modulo 256.
pub type Sequence = u8;

/// Number of payload bytes.
pub type PayloadLength = u8;

/// Frame checksum.
pub type Checksum = u16;

/// Bytes of a `MAVLink 1` header.
pub type HeaderV1Bytes = [u8; HEADER_V1_SIZE];

/// Bytes of a `MAVLink 2` header.
pub type HeaderV2Bytes = [u8; HEADER_V2_SIZE];

/// Bytes of a signature as they appear on the wire.
pub type SignatureBytes = [u8; SIGNATURE_LENGTH];

/// Identifier of a signed link.
pub type SignedLinkId = u8;

/// Bytes of a signature timestamp.
pub type SignatureTimestampBytes = [u8; SIGNATURE_TIMESTAMP_LENGTH];

/// The 48-bit digest of a signature.
pub type SignatureValue = [u8; SIGNATURE_VALUE_LENGTH];

/// Another name for [`Behold`].
pub type Unsafe<T> = Behold<T>;

/// Version of the MAVLink protocol.
#[derive(Clone, Copy, Debug, PartialEq, Eq, Structural)]
pub enum MavLinkVersion {
    /// `MAVLink 1`.
    V1,
    /// `MAVLink 2`.
    V2,
}

impl MavLinkVersion {
    /// The version itself.
    pub fn mavlink_version(&self) -> (version: MavLinkVersion)
        ensures
            version == *self,
    {
        *self
    }
}

impl Default for MavLinkVersion {
    /// The newer protocol version is the default one.
    fn default() -> (v: MavLinkVersion)
        ensures
            v == MavLinkVersion::V2,
    {
        MavLinkVersion::V2
    }
}

/// A value that asks for the caller's attention.
///
/// The wrapped value may be stale or may let the caller build something inconsistent. The caller
/// either takes it with [`Behold::unwrap`] or drops it with [`Behold::discard`].
#[must_use]
pub struct Behold<T>(T);

impl<T> Behold<T> {
    /// The wrapped value.
    pub closed spec fn view(&self) -> T {
        self.0
    }

    /// Wraps a value.
    pub fn new(value: T) -> (b: Behold<T>)
        ensures
            b@ == value,
    {
        Behold(value)
    }

    /// Takes the wrapped value.
    #[must_use]
    pub fn unwrap(self) -> (value: T)
        ensures
            value == self@,
    {
        self.0
    }

    /// Drops the wrapped value.
    pub fn discard(self) {
    }
}

} // verus!
