//! Sizes and magic numbers of the MAVLink wire format.

use vstd::prelude::*;

verus! {

/// Largest number of payload bytes a frame can carry.
pub const PAYLOAD_MAX_SIZE: usize = 255;

/// Largest message identifier a `MAVLink 1` header can hold.
pub const MESSAGE_ID_V1_MAX: u32 = 255;

/// Upper bound of the 24-bit message identifiers of `MAVLink 2`.
pub const MESSAGE_ID_V2_MAX: u32 = 16777216;

/// Start-of-packet marker of `MAVLink 1`.
pub const STX_V1: u8 = 0xFE;

/// Start-of-packet marker of `MAVLink 2`.
pub const STX_V2: u8 = 0xFD;

/// Size of a `MAVLink 1` header.
pub const HEADER_V1_SIZE: usize = 6;

/// Size of a `MAVLink 2` header.
pub const HEADER_V2_SIZE: usize = 10;

/// Size of the shortest header, which is also the chunk the scanner reads at once.
pub const HEADER_MIN_SIZE: usize = HEADER_V1_SIZE;

/// Size of the longest header.
pub const HEADER_MAX_SIZE: usize = HEADER_V2_SIZE;

/// Size of the checksum that follows the payload.
pub const CHECKSUM_SIZE: usize = 2;

/// Incompatibility flag that marks a `MAVLink 2` frame as signed.
pub const MAVLINK_IFLAG_SIGNED: u8 = 0x01;

/// Size of the link identifier inside a signature.
pub const SIGNATURE_LINK_ID_LENGTH: usize = 1;

/// Size of the timestamp inside a signature.
pub const SIGNATURE_TIMESTAMP_LENGTH: usize = 6;

/// Size of the digest inside a signature.
pub const SIGNATURE_VALUE_LENGTH: usize = 6;

/// Size of a whole signature on the wire.
pub const SIGNATURE_LENGTH: usize = SIGNATURE_LINK_ID_LENGTH + SIGNATURE_TIMESTAMP_LENGTH
    + SIGNATURE_VALUE_LENGTH;

/// Seconds between the Unix epoch and the MAVLink epoch (1st January 2015 GMT).
pub const SIGNATURE_TIMESTAMP_OFFSET: u64 = 1420070400;

/// Size of a secret key.
pub const SIGNATURE_SECRET_KEY_LENGTH: usize = 32;

/// Largest raw value of a 48-bit timestamp.
pub const TIMESTAMP_RAW_MAX: u64 = 0xffff_ffff_ffff;

} // verus!
