//! Framing layer of the MAVLink protocol: headers, frames, checksums, signatures and the
//! rules that connect them, for `MAVLink 1` and `MAVLink 2`.

pub mod bytes;
pub mod compat;
pub mod consts;
pub mod crc;
pub mod device;
pub mod dialect;
pub mod endpoint;
pub mod error;
pub mod flags;
pub mod frame;
pub mod frame_builder;
pub mod header;
pub mod header_builder;
pub mod io;
pub mod marker;
pub mod mav_frame;
pub mod payload;
pub mod receiver;
pub mod sender;
pub mod sequencer;
pub mod sha;
pub mod signature;
pub mod stx;
pub mod types;
pub mod update;

pub use compat::{CompatProcessor, CompatProcessorBuilder, CompatStrategy, IntoCompatProcessor};
pub use device::Device;
pub use dialect::{Dialect, Message, MessageInfo};
pub use endpoint::{Endpoint, MavLinkId};
pub use error::{
    ChecksumError, Error, FrameError, IncompatFlagsError, IoError, IoErrorKind, SignatureError,
    SpecError, VersionError,
};
pub use flags::{CompatFlags, IncompatFlags};
pub use frame::Frame;
pub use frame_builder::FrameBuilder;
pub use header::{Header, HeaderBytes, HeaderStart};
pub use header_builder::HeaderBuilder;
pub use io::{Read, SliceReader, SliceWriter, Write};
pub use marker::{
    IsVersioned, MaybeVersioned, NotVersioned, Unset, Versioned, Versionless, V1, V2,
};
pub use mav_frame::MavFrame;
pub use payload::Payload;
pub use receiver::Receiver;
pub use sender::Sender;
pub use sequencer::{IntoSequencer, Sequencer};
pub use sha::MavSha256;
pub use signature::{
    MavTimestamp, SecretKey, Sign, Signature, SignatureConf, Signer, SigningConf,
};
pub use stx::MavSTX;
pub use update::{Scramble, TryUpdateFrom, UpdateFrame, UpdateFrameUnsafe};
pub use types::{
    Behold, Checksum, ComponentId, CrcExtra, HeaderV1Bytes, HeaderV2Bytes, MavLinkVersion,
    MessageId, PayloadLength, Sequence, SignatureBytes, SignatureTimestampBytes, SignatureValue,
    SignedLinkId, SystemId, Unsafe,
};
