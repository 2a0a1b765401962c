//! Errors of the framing layer.

use vstd::prelude::*;
use vstd::std_specs::convert::FromSpecImpl;
use crate::flags::IncompatFlags;
use crate::types::{MavLinkVersion, MessageId};

verus! {

/// What went wrong with a byte stream.
#[derive(Clone, Copy, Debug, PartialEq, Eq, Structural)]
pub enum IoErrorKind {
    /// The stream ended before the requested bytes were there, or the target had no room for
    /// the bytes to write.
    UnexpectedEof,
    /// The operation was interrupted and may be tried again.
    Interrupted,
    /// Any other failure.
    Generic,
}

/// Failure of a byte stream.
#[derive(Clone, Copy, Debug, PartialEq, Eq, Structural)]
pub struct IoError {
    kind: IoErrorKind,
}

impl IoError {
    /// The kind of the failure.
    pub closed spec fn spec_kind(&self) -> IoErrorKind {
        self.kind
    }

    /// The error of the given kind.
    pub closed spec fn spec_new(kind: IoErrorKind) -> IoError {
        IoError { kind }
    }

    /// An error is the error of its kind.
    pub proof fn lemma_is_its_kind(self)
        ensures
            self == IoError::spec_new(self.spec_kind()),
            forall|kind: IoErrorKind| #[trigger] IoError::spec_new(kind).spec_kind() == kind,
    {
    }

    /// An error of the given kind.
    pub fn new(kind: IoErrorKind) -> (e: IoError)
        ensures
            e == IoError::spec_new(kind),
            e.spec_kind() == kind,
    {
        IoError { kind }
    }

    /// The kind of the failure.
    pub fn kind(&self) -> (k: &IoErrorKind)
        ensures
            *k == self.spec_kind(),
    {
        &self.kind
    }
}

impl From<IoErrorKind> for IoError {
    fn from(kind: IoErrorKind) -> (e: IoError)
        ensures
            e.spec_kind() == kind,
    {
        IoError { kind }
    }
}

impl FromSpecImpl<IoErrorKind> for IoError {
    open spec fn obeys_from_spec() -> bool {
        true
    }

    closed spec fn from_spec(kind: IoErrorKind) -> IoError {
        IoError { kind }
    }
}

/// A frame of one protocol version met a consumer bound to the other.
#[derive(Clone, Copy, Debug, PartialEq, Eq, Structural)]
pub struct VersionError {
    /// The version the consumer is bound to.
    pub expected: MavLinkVersion,
    /// The version the frame declares.
    pub actual: MavLinkVersion,
}

/// The checksum of a frame is not the one computed from its content.
#[derive(Clone, Copy, Debug, PartialEq, Eq, Structural)]
pub struct ChecksumError;

/// The signature of a frame is not the one computed with the given key.
#[derive(Clone, Copy, Debug, PartialEq, Eq, Structural)]
pub struct SignatureError;

/// The incompatibility flags of a frame are not the ones a processor asks for.
#[derive(Clone, Copy, Debug, PartialEq, Eq, Structural)]
pub struct IncompatFlagsError {
    /// The flags the processor asks for.
    pub expected: IncompatFlags,
    /// The flags the frame carries.
    pub actual: IncompatFlags,
}

/// Errors of frame validation.
#[derive(Clone, Copy, Debug, PartialEq, Eq, Structural)]
pub enum FrameError {
    /// The frame has the wrong protocol version.
    Version(VersionError),
    /// The checksum does not match.
    Checksum,
    /// The signature does not match.
    Signature,
    /// The incompatibility flags were rejected.
    Incompatible(IncompatFlagsError),
    /// The dialect knows no message of this identifier.
    NotInDialect(MessageId),
}

/// Errors of a message codec: what a dialect reports when it cannot encode or decode.
#[allow(inconsistent_fields)]
#[derive(Clone, Copy, Debug, PartialEq, Eq)]
pub enum SpecError {
    /// The message needs a newer protocol version.
    UnsupportedMavLinkVersion {
        /// The version that was asked for.
        actual: MavLinkVersion,
        /// The oldest version that can carry the message.
        minimal: MavLinkVersion,
    },
    /// The dialect knows no message of this identifier.
    NotInDialect(MessageId),
    /// A field holds a value that its enumeration does not have.
    InvalidEnumValue {
        /// Name of the enumeration.
        enum_name: &'static str,
    },
    /// A `MAVLink 1` payload does not have the size that the message prescribes.
    InvalidV1PayloadSize {
        /// The size of the payload.
        actual: usize,
        /// The size that the message prescribes.
        expected: usize,
    },
    /// A `MAVLink 2` payload is longer than the message allows.
    V2PayloadIsTooLong {
        /// The size of the payload.
        actual: usize,
        /// The largest size that the message allows.
        maximum: usize,
    },
}

/// Every error of this library.
#[derive(Clone, Copy, Debug, PartialEq, Eq)]
pub enum Error {
    /// The byte stream failed.
    Io(IoError),
    /// A frame did not pass validation.
    Frame(FrameError),
    /// A message codec failed.
    Spec(SpecError),
}

impl From<VersionError> for FrameError {
    fn from(value: VersionError) -> (e: FrameError) {
        FrameError::Version(value)
    }
}

impl FromSpecImpl<VersionError> for FrameError {
    open spec fn obeys_from_spec() -> bool {
        true
    }

    open spec fn from_spec(value: VersionError) -> FrameError {
        FrameError::Version(value)
    }
}

impl From<ChecksumError> for FrameError {
    fn from(value: ChecksumError) -> (e: FrameError) {
        FrameError::Checksum
    }
}

impl FromSpecImpl<ChecksumError> for FrameError {
    open spec fn obeys_from_spec() -> bool {
        true
    }

    open spec fn from_spec(value: ChecksumError) -> FrameError {
        FrameError::Checksum
    }
}

impl From<SignatureError> for FrameError {
    fn from(value: SignatureError) -> (e: FrameError) {
        FrameError::Signature
    }
}

impl FromSpecImpl<SignatureError> for FrameError {
    open spec fn obeys_from_spec() -> bool {
        true
    }

    open spec fn from_spec(value: SignatureError) -> FrameError {
        FrameError::Signature
    }
}

impl From<IncompatFlagsError> for FrameError {
    fn from(value: IncompatFlagsError) -> (e: FrameError) {
        FrameError::Incompatible(value)
    }
}

impl FromSpecImpl<IncompatFlagsError> for FrameError {
    open spec fn obeys_from_spec() -> bool {
        true
    }

    open spec fn from_spec(value: IncompatFlagsError) -> FrameError {
        FrameError::Incompatible(value)
    }
}

impl From<IoError> for Error {
    fn from(value: IoError) -> (e: Error) {
        Error::Io(value)
    }
}

impl FromSpecImpl<IoError> for Error {
    open spec fn obeys_from_spec() -> bool {
        true
    }

    open spec fn from_spec(value: IoError) -> Error {
        Error::Io(value)
    }
}

impl From<FrameError> for Error {
    fn from(value: FrameError) -> (e: Error) {
        Error::Frame(value)
    }
}

impl FromSpecImpl<FrameError> for Error {
    open spec fn obeys_from_spec() -> bool {
        true
    }

    open spec fn from_spec(value: FrameError) -> Error {
        Error::Frame(value)
    }
}

impl From<VersionError> for Error {
    fn from(value: VersionError) -> (e: Error) {
        Error::Frame(FrameError::Version(value))
    }
}

impl FromSpecImpl<VersionError> for Error {
    open spec fn obeys_from_spec() -> bool {
        true
    }

    open spec fn from_spec(value: VersionError) -> Error {
        Error::Frame(FrameError::Version(value))
    }
}

impl From<ChecksumError> for Error {
    fn from(value: ChecksumError) -> (e: Error) {
        Error::Frame(FrameError::Checksum)
    }
}

impl FromSpecImpl<ChecksumError> for Error {
    open spec fn obeys_from_spec() -> bool {
        true
    }

    open spec fn from_spec(value: ChecksumError) -> Error {
        Error::Frame(FrameError::Checksum)
    }
}

impl From<SignatureError> for Error {
    fn from(value: SignatureError) -> (e: Error) {
        Error::Frame(FrameError::Signature)
    }
}

impl FromSpecImpl<SignatureError> for Error {
    open spec fn obeys_from_spec() -> bool {
        true
    }

    open spec fn from_spec(value: SignatureError) -> Error {
        Error::Frame(FrameError::Signature)
    }
}

impl From<IncompatFlagsError> for Error {
    fn from(value: IncompatFlagsError) -> (e: Error) {
        Error::Frame(FrameError::Incompatible(value))
    }
}

impl FromSpecImpl<IncompatFlagsError> for Error {
    open spec fn obeys_from_spec() -> bool {
        true
    }

    open spec fn from_spec(value: IncompatFlagsError) -> Error {
        Error::Frame(FrameError::Incompatible(value))
    }
}

/// The error of this library that stands for a codec error: an unknown message is a frame
/// error, every other codec error stays a codec error.
pub open spec fn error_of(value: SpecError) -> Error {
    match value {
        SpecError::NotInDialect(id) => Error::Frame(FrameError::NotInDialect(id)),
        _ => Error::Spec(value),
    }
}

impl From<SpecError> for Error {
    /// An unknown message is a frame error; every other codec error stays a codec error.
    fn from(value: SpecError) -> (e: Error) {
        match value {
            SpecError::NotInDialect(id) => Error::Frame(FrameError::NotInDialect(id)),
            _ => Error::Spec(value),
        }
    }
}

impl FromSpecImpl<SpecError> for Error {
    open spec fn obeys_from_spec() -> bool {
        true
    }

    open spec fn from_spec(value: SpecError) -> Error {
        error_of(value)
    }
}

} // verus!
