//! Markers that bind frames, headers, senders and receivers to a protocol version, and markers
//! that record which fields a builder already holds.

use vstd::prelude::*;
use crate::consts::{STX_V1, STX_V2};
use crate::error::VersionError;
use crate::payload::Payload;
use crate::signature::Signature;
use crate::types::{
    ComponentId, CrcExtra, MavLinkVersion, MessageId, PayloadLength, Sequence, SystemId,
};

verus! {

/// Whether something bound to `bound` (or to nothing) takes frames of `version`.
pub open spec fn version_matches(bound: Option<MavLinkVersion>, version: MavLinkVersion) -> bool {
    bound matches Some(v) ==> v == version
}

/// Whether something bound to `bound` (or to nothing) takes `byte` for a start of a packet.
pub open spec fn accepts_magic_byte(bound: Option<MavLinkVersion>, byte: u8) -> bool {
    match bound {
        None => byte == STX_V1 || byte == STX_V2,
        Some(MavLinkVersion::V1) => byte == STX_V1,
        Some(MavLinkVersion::V2) => byte == STX_V2,
    }
}

/// Tells which bytes may start a packet.
pub trait IsMagicByte {
    /// Whether `byte` may start a packet.
    spec fn spec_is_magic_byte(byte: u8) -> bool;

    /// Whether `byte` may start a packet.
    fn is_magic_byte(byte: u8) -> (b: bool)
        ensures
            b == Self::spec_is_magic_byte(byte),
    ;
}

/// A marker that may or may not name a protocol version.
pub trait MaybeVersioned: IsMagicByte + Clone {
    /// The version this marker names, if it names one.
    spec fn bound() -> Option<MavLinkVersion>;

    /// The bytes that may start a packet are the markers of the versions that match.
    proof fn magic_byte_follows_bound(byte: u8)
        ensures
            Self::spec_is_magic_byte(byte) == accepts_magic_byte(Self::bound(), byte),
    ;

    /// Fails, naming both versions, unless `version` matches this marker.
    fn expect(version: MavLinkVersion) -> (r: Result<(), VersionError>)
        ensures
            r is Ok <==> version_matches(Self::bound(), version),
            r matches Err(e) ==> Self::bound() == Some(e.expected) && e.actual == version,
    ;

    /// Whether `version` matches this marker.
    fn matches(version: MavLinkVersion) -> (b: bool)
        ensures
            b == version_matches(Self::bound(), version),
    ;
}

/// A marker that names a protocol version.
pub trait Versioned: MaybeVersioned {
    /// The version this marker names.
    fn version() -> (v: MavLinkVersion)
        ensures
            Self::bound() == Some(v),
    ;

    /// The version this marker names.
    fn ver(&self) -> (v: MavLinkVersion)
        ensures
            Self::bound() == Some(v),
    ;

    /// The marker itself.
    fn v() -> Self;
}

/// Marks what takes both protocol versions.
#[derive(Clone, Copy, Debug, Default)]
pub struct Versionless;

/// Marks what belongs to `MAVLink 1`.
#[derive(Clone, Copy, Debug, Default)]
pub struct V1;

/// Marks what belongs to `MAVLink 2`.
#[derive(Clone, Copy, Debug, Default)]
pub struct V2;

fn match_error(expected: MavLinkVersion, actual: MavLinkVersion) -> (r: Result<(), VersionError>)
    ensures
        r is Ok <==> expected == actual,
        r matches Err(e) ==> e.expected == expected && e.actual == actual,
{
    if expected != actual {
        return Err(VersionError { expected, actual });
    }
    Ok(())
}

impl IsMagicByte for Versionless {
    open spec fn spec_is_magic_byte(byte: u8) -> bool {
        byte == STX_V1 || byte == STX_V2
    }

    fn is_magic_byte(byte: u8) -> (b: bool) {
        byte == STX_V1 || byte == STX_V2
    }
}

impl MaybeVersioned for Versionless {
    open spec fn bound() -> Option<MavLinkVersion> {
        None
    }

    proof fn magic_byte_follows_bound(byte: u8) {
    }

    fn expect(version: MavLinkVersion) -> (r: Result<(), VersionError>) {
        Ok(())
    }

    fn matches(version: MavLinkVersion) -> (b: bool) {
        true
    }
}

impl IsMagicByte for V1 {
    open spec fn spec_is_magic_byte(byte: u8) -> bool {
        byte == STX_V1
    }

    fn is_magic_byte(byte: u8) -> (b: bool) {
        byte == STX_V1
    }
}

impl MaybeVersioned for V1 {
    open spec fn bound() -> Option<MavLinkVersion> {
        Some(MavLinkVersion::V1)
    }

    proof fn magic_byte_follows_bound(byte: u8) {
    }

    fn expect(version: MavLinkVersion) -> (r: Result<(), VersionError>) {
        match_error(MavLinkVersion::V1, version)
    }

    fn matches(version: MavLinkVersion) -> (b: bool) {
        version == MavLinkVersion::V1
    }
}

impl Versioned for V1 {
    fn version() -> (v: MavLinkVersion) {
        MavLinkVersion::V1
    }

    fn ver(&self) -> (v: MavLinkVersion) {
        MavLinkVersion::V1
    }

    fn v() -> V1 {
        V1
    }
}

impl IsMagicByte for V2 {
    open spec fn spec_is_magic_byte(byte: u8) -> bool {
        byte == STX_V2
    }

    fn is_magic_byte(byte: u8) -> (b: bool) {
        byte == STX_V2
    }
}

impl MaybeVersioned for V2 {
    open spec fn bound() -> Option<MavLinkVersion> {
        Some(MavLinkVersion::V2)
    }

    proof fn magic_byte_follows_bound(byte: u8) {
    }

    fn expect(version: MavLinkVersion) -> (r: Result<(), VersionError>) {
        match_error(MavLinkVersion::V2, version)
    }

    fn matches(version: MavLinkVersion) -> (b: bool) {
        version == MavLinkVersion::V2
    }
}

impl Versioned for V2 {
    fn version() -> (v: MavLinkVersion) {
        MavLinkVersion::V2
    }

    fn ver(&self) -> (v: MavLinkVersion) {
        MavLinkVersion::V2
    }

    fn v() -> V2 {
        V2
    }
}

/// Something that may hold a protocol version and says whether another version agrees with it.
pub trait IsVersioned {
    /// The version that is held, if one is held.
    spec fn held(&self) -> Option<MavLinkVersion>;

    /// Fails, naming both versions, unless `version` agrees with what is held.
    fn matches(&self, version: MavLinkVersion) -> (r: Result<(), VersionError>)
        ensures
            r is Ok <==> version_matches(self.held(), version),
            r matches Err(e) ==> self.held() == Some(e.expected) && e.actual == version,
    ;
}

/// Holds no protocol version: every version agrees with it.
#[derive(Clone, Copy, Debug, Default)]
pub struct NotVersioned();

impl IsVersioned for NotVersioned {
    open spec fn held(&self) -> Option<MavLinkVersion> {
        None
    }

    fn matches(&self, version: MavLinkVersion) -> (r: Result<(), VersionError>) {
        Ok(())
    }
}

impl IsVersioned for MavLinkVersion {
    open spec fn held(&self) -> Option<MavLinkVersion> {
        Some(*self)
    }

    fn matches(&self, version: MavLinkVersion) -> (r: Result<(), VersionError>) {
        match_error(*self, version)
    }
}

/// A field of a builder that was not set yet, whatever the field.
#[derive(Clone, Copy, Debug, Default, PartialEq, Eq, Hash)]
pub struct Unset;

/// State of the payload length in a builder.
pub trait IsPayloadLen {
}

/// State of the sequence number in a builder.
pub trait IsSequenced {
}

/// State of the system identifier in a builder.
pub trait IsSysId {
}

/// State of the component identifier in a builder.
pub trait IsCompId {
}

/// State of the message identifier in a builder.
pub trait IsMsgId {
}

/// State of the payload in a builder.
pub trait IsPayload {
}

/// State of the checksum salt in a builder.
pub trait IsCrcExtra {
}

/// State of the signature in a builder.
pub trait IsSigned {
    /// The signature, if one is there.
    spec fn spec_signature(&self) -> Option<Signature>;

    /// Whether a signature is there.
    fn is_signed(&self) -> (b: bool)
        ensures
            b == (self.spec_signature() is Some),
    ;

    /// The signature, if one is there.
    fn signature(&self) -> (signature: Option<Signature>)
        ensures
            signature == self.spec_signature(),
    ;
}

/// The payload length is not set.
#[derive(Clone, Copy, Debug, Default)]
pub struct NoPayloadLen;

/// The payload length is set.
#[derive(Clone, Copy, Debug, Default)]
pub struct HasPayloadLen(pub PayloadLength);

/// The sequence number is not set.
#[derive(Clone, Copy, Debug, Default)]
pub struct NotSequenced;

/// The sequence number is set.
#[derive(Clone, Copy, Debug, Default)]
pub struct Sequenced(pub Sequence);

/// The system identifier is not set.
#[derive(Clone, Copy, Debug, Default)]
pub struct NoSysId;

/// The system identifier is set.
#[derive(Clone, Copy, Debug, Default)]
pub struct HasSysId(pub SystemId);

/// The component identifier is not set.
#[derive(Clone, Copy, Debug, Default)]
pub struct NoCompId;

/// The component identifier is set.
#[derive(Clone, Copy, Debug, Default)]
pub struct HasCompId(pub ComponentId);

/// The message identifier is not set.
#[derive(Clone, Copy, Debug, Default)]
pub struct NoMsgId;

/// The message identifier is set.
#[derive(Clone, Copy, Debug, Default)]
pub struct HasMsgId(pub MessageId);

/// The payload is not set.
#[derive(Clone, Copy, Debug, Default)]
pub struct NoPayload;

/// The payload is set.
#[derive(Debug)]
pub struct HasPayload(pub Payload);

/// The checksum salt is not set.
#[derive(Clone, Copy, Debug, Default)]
pub struct NoCrcExtra;

/// The checksum salt is set.
#[derive(Clone, Copy, Debug, Default)]
pub struct HasCrcExtra(pub CrcExtra);

/// No signature is set.
#[derive(Clone, Copy, Debug, Default)]
pub struct NotSigned;

/// A signature is set.
#[derive(Clone, Copy, Debug)]
pub struct HasSignature(pub Signature);

impl IsPayloadLen for Unset {
}

impl IsPayloadLen for NoPayloadLen {
}

impl IsPayloadLen for HasPayloadLen {
}

impl IsSequenced for Unset {
}

impl IsSequenced for NotSequenced {
}

impl IsSequenced for Sequenced {
}

impl IsSysId for Unset {
}

impl IsSysId for NoSysId {
}

impl IsSysId for HasSysId {
}

impl IsCompId for Unset {
}

impl IsCompId for NoCompId {
}

impl IsCompId for HasCompId {
}

impl IsMsgId for Unset {
}

impl IsMsgId for NoMsgId {
}

impl IsMsgId for HasMsgId {
}

impl IsPayload for Unset {
}

impl IsPayload for NoPayload {
}

impl IsPayload for HasPayload {
}

impl IsCrcExtra for Unset {
}

impl IsCrcExtra for NoCrcExtra {
}

impl IsCrcExtra for HasCrcExtra {
}

impl IsSigned for Unset {
    open spec fn spec_signature(&self) -> Option<Signature> {
        None
    }

    fn is_signed(&self) -> (b: bool) {
        false
    }

    fn signature(&self) -> (signature: Option<Signature>) {
        None
    }
}

impl IsSigned for NotSigned {
    open spec fn spec_signature(&self) -> Option<Signature> {
        None
    }

    fn is_signed(&self) -> (b: bool) {
        false
    }

    fn signature(&self) -> (signature: Option<Signature>) {
        None
    }
}

impl IsSigned for HasSignature {
    open spec fn spec_signature(&self) -> Option<Signature> {
        Some(self.0)
    }

    fn is_signed(&self) -> (b: bool) {
        true
    }

    fn signature(&self) -> (signature: Option<Signature>) {
        Some(self.0)
    }
}

} // verus!
