//! A frame that carries its protocol version in its shape.

use vstd::prelude::*;
use vstd::std_specs::convert::{FromSpecImpl, TryFromSpecImpl};
use crate::dialect::Dialect;
use crate::error::{Error, FrameError, VersionError};
use crate::frame::{Frame, FrameView};
use crate::marker::{version_matches, MaybeVersioned, Versioned, Versionless, V1, V2};
use crate::payload::Payload;
use crate::signature::Signature;
use crate::types::{
    Checksum, ComponentId, CrcExtra, MavLinkVersion, MessageId, PayloadLength, Sequence, SystemId,
};

verus! {

/// A frame of either protocol version.
#[derive(Debug)]
pub enum MavFrame {
    /// A `MAVLink 1` frame.
    V1(Frame<V1>),
    /// A `MAVLink 2` frame.
    V2(Frame<V2>),
}

impl MavFrame {
    /// What the frame holds.
    pub open spec fn view(&self) -> FrameView {
        match self {
            MavFrame::V1(frame) => frame@,
            MavFrame::V2(frame) => frame@,
        }
    }

    /// The frame in the shape of its version.
    pub fn new<V: MaybeVersioned>(frame: Frame<V>) -> (this: MavFrame)
        ensures
            this@ == frame@,
            this is V1 <==> frame@.header.version == MavLinkVersion::V1,
    {
        match frame.version() {
            MavLinkVersion::V1 => MavFrame::V1(frame.rebind::<V1>()),
            MavLinkVersion::V2 => MavFrame::V2(frame.rebind::<V2>()),
        }
    }

    /// Protocol version.
    pub fn version(&self) -> (version: MavLinkVersion)
        ensures
            version == self@.header.version,
            self is V1 <==> version == MavLinkVersion::V1,
    {
        match self {
            MavFrame::V1(frame) => frame.version(),
            MavFrame::V2(frame) => frame.version(),
        }
    }

    /// Number of payload bytes that the header declares.
    pub fn payload_length(&self) -> (length: PayloadLength)
        ensures
            length == self@.header.payload_length,
    {
        match self {
            MavFrame::V1(frame) => frame.payload_length(),
            MavFrame::V2(frame) => frame.payload_length(),
        }
    }

    /// Sequence number.
    pub fn sequence(&self) -> (sequence: Sequence)
        ensures
            sequence == self@.header.sequence,
    {
        match self {
            MavFrame::V1(frame) => frame.sequence(),
            MavFrame::V2(frame) => frame.sequence(),
        }
    }

    /// System that sent the frame.
    pub fn system_id(&self) -> (id: SystemId)
        ensures
            id == self@.header.system_id,
    {
        match self {
            MavFrame::V1(frame) => frame.system_id(),
            MavFrame::V2(frame) => frame.system_id(),
        }
    }

    /// Component that sent the frame.
    pub fn component_id(&self) -> (id: ComponentId)
        ensures
            id == self@.header.component_id,
    {
        match self {
            MavFrame::V1(frame) => frame.component_id(),
            MavFrame::V2(frame) => frame.component_id(),
        }
    }

    /// Identifier of the message.
    pub fn message_id(&self) -> (id: MessageId)
        ensures
            id == self@.header.message_id,
    {
        match self {
            MavFrame::V1(frame) => frame.message_id(),
            MavFrame::V2(frame) => frame.message_id(),
        }
    }

    /// The payload.
    pub fn payload(&self) -> (payload: &Payload)
        ensures
            payload.spec_bytes() == self@.payload,
            payload.spec_id() == self@.payload_id,
            payload.spec_version() == self@.payload_version,
    {
        match self {
            MavFrame::V1(frame) => frame.payload(),
            MavFrame::V2(frame) => frame.payload(),
        }
    }

    /// The checksum that the frame carries.
    pub fn checksum(&self) -> (checksum: Checksum)
        ensures
            checksum == self@.checksum,
    {
        match self {
            MavFrame::V1(frame) => frame.checksum(),
            MavFrame::V2(frame) => frame.checksum(),
        }
    }

    /// Whether the frame is a `MAVLink 2` frame that carries a signature.
    pub fn is_signed(&self) -> (signed: bool)
        ensures
            signed == (self is V2 && self@.signature is Some),
    {
        match self {
            MavFrame::V1(_) => false,
            MavFrame::V2(frame) => frame.is_signed(),
        }
    }

    /// The signature, if the frame is a `MAVLink 2` frame that carries one.
    pub fn signature(&self) -> (signature: Option<&Signature>)
        ensures
            signature is Some <==> (self is V2 && self@.signature is Some),
            signature matches Some(s) ==> self@.signature == Some(*s),
    {
        match self {
            MavFrame::V1(_) => None,
            MavFrame::V2(frame) => frame.signature(),
        }
    }

    /// Takes the signature and the "signed" flag from a `MAVLink 2` frame.
    pub fn remove_signature(&mut self)
        ensures
            *old(self) is V1 ==> *final(self) == *old(self),
            *old(self) is V2 ==> *final(self) is V2 && final(self)@ == old(self)@.unsigned(),
    {
        match self {
            MavFrame::V1(_) => (),
            MavFrame::V2(frame) => frame.remove_signature(),
        }
    }

    /// Number of bytes that follow the header on the wire, as the header declares it.
    pub fn body_length(&self) -> (length: usize)
        ensures
            length == self@.header.body_length(),
    {
        match self {
            MavFrame::V1(frame) => frame.body_length(),
            MavFrame::V2(frame) => frame.body_length(),
        }
    }

    /// The checksum of the frame as it is, with `crc_extra` as the salt of its message.
    pub fn calculate_crc(&self, crc_extra: CrcExtra) -> (crc: Checksum)
        ensures
            crc == self@.crc(crc_extra),
    {
        match self {
            MavFrame::V1(frame) => frame.calculate_crc(crc_extra),
            MavFrame::V2(frame) => frame.calculate_crc(crc_extra),
        }
    }

    /// Checks the checksum against the salt that the dialect `D` has for the message.
    pub fn validate_checksum<D: Dialect>(&self) -> (r: Result<(), Error>)
        ensures
            match D::spec_crc_extra(self@.header.message_id) {
                Some(crc_extra) => (r is Ok <==> self@.checksum == self@.crc(crc_extra)) && (r
                    is Err ==> r == Err::<(), Error>(Error::Frame(FrameError::Checksum))),
                None => r == Err::<(), Error>(
                    Error::Frame(FrameError::NotInDialect(self@.header.message_id)),
                ),
            },
    {
        match self {
            MavFrame::V1(frame) => frame.validate_checksum::<D>(),
            MavFrame::V2(frame) => frame.validate_checksum::<D>(),
        }
    }

    /// Checks the checksum against a given salt.
    pub fn validate_checksum_with_crc_extra(&self, crc_extra: CrcExtra) -> (r: Result<(), Error>)
        ensures
            r is Ok <==> self@.checksum == self@.crc(crc_extra),
            r is Err ==> r == Err::<(), Error>(Error::Frame(FrameError::Checksum)),
    {
        match self {
            MavFrame::V1(frame) => frame.validate_checksum_with_crc_extra(crc_extra),
            MavFrame::V2(frame) => frame.validate_checksum_with_crc_extra(crc_extra),
        }
    }

    /// The message of the frame, as the dialect `D` reads it from the payload.
    pub fn decode<D: Dialect>(&self) -> (r: Result<D, Error>)
        ensures
            r == self@.decoded::<D>(),
            r matches Err(e) ==> !(e is Io),
    {
        match self {
            MavFrame::V1(frame) => frame.decode(),
            MavFrame::V2(frame) => frame.decode(),
        }
    }

    /// Whether the frame has the protocol version of the marker.
    pub fn matches_version<Version: Versioned>(&self, version: Version) -> (matches: bool)
        ensures
            matches == (Version::bound() == Some(self@.header.version)),
    {
        let expected = Version::version();
        expected == self.version()
    }

    /// The frame bound to no version.
    pub fn into_versionless(self) -> (frame: Frame<Versionless>)
        ensures
            frame@ == self@,
    {
        match self {
            MavFrame::V1(frame) => frame.into_versionless(),
            MavFrame::V2(frame) => frame.into_versionless(),
        }
    }

    /// The frame bound to `V`, if `V` takes its protocol version.
    pub fn try_into_versioned<V: MaybeVersioned>(self) -> (r: Result<Frame<V>, Error>)
        ensures
            r is Ok <==> version_matches(V::bound(), self@.header.version),
            r matches Ok(frame) ==> frame@ == self@,
            r matches Err(e) ==> V::bound() matches Some(expected) && e == Error::Frame(
                FrameError::Version(VersionError { expected, actual: self@.header.version }),
            ),
    {
        match self {
            MavFrame::V1(frame) => frame.try_into_versioned::<V>(),
            MavFrame::V2(frame) => frame.try_into_versioned::<V>(),
        }
    }
}

impl<V: MaybeVersioned> From<Frame<V>> for MavFrame {
    fn from(value: Frame<V>) -> (this: MavFrame)
        ensures
            this@ == value@,
            this is V1 <==> value@.header.version == MavLinkVersion::V1,
    {
        MavFrame::new(value)
    }
}

impl<V: MaybeVersioned> FromSpecImpl<Frame<V>> for MavFrame {
    open spec fn obeys_from_spec() -> bool {
        false
    }

    closed spec fn from_spec(value: Frame<V>) -> MavFrame {
        arbitrary()
    }
}

impl<V: MaybeVersioned> TryFrom<MavFrame> for Frame<V> {
    type Error = Error;

    fn try_from(value: MavFrame) -> (r: Result<Frame<V>, Error>)
        ensures
            r is Ok <==> version_matches(V::bound(), value@.header.version),
            r matches Ok(frame) ==> frame@ == value@,
            r matches Err(e) ==> V::bound() matches Some(expected) && e == Error::Frame(
                FrameError::Version(VersionError { expected, actual: value@.header.version }),
            ),
    {
        value.try_into_versioned::<V>()
    }
}

impl<V: MaybeVersioned> TryFromSpecImpl<MavFrame> for Frame<V> {
    open spec fn obeys_try_from_spec() -> bool {
        false
    }

    closed spec fn try_from_spec(value: MavFrame) -> Result<Frame<V>, Error> {
        arbitrary()
    }
}

} // verus!
