//! What the framing layer needs to know about messages and dialects.
//!
//! Messages and their schemas live outside this library. The framing layer asks a message for
//! its identifier, its checksum salt and its encoded payload, and a dialect for the salt of a
//! message identifier.

use vstd::prelude::*;
use crate::error::SpecError;
use crate::payload::Payload;
use crate::types::{CrcExtra, MavLinkVersion, MessageId};

verus! {

/// What a dialect knows about a message: its identifier and its checksum salt.
#[derive(Clone, Copy, Debug, PartialEq, Eq, Structural)]
pub struct MessageInfo {
    /// Identifier of the message.
    pub id: MessageId,
    /// Checksum salt of the message.
    pub crc_extra: CrcExtra,
}

impl MessageInfo {
    /// The description of a message.
    pub fn new(id: MessageId, crc_extra: CrcExtra) -> (info: MessageInfo)
        ensures
            info.id == id,
            info.crc_extra == crc_extra,
    {
        MessageInfo { id, crc_extra }
    }

    /// Identifier of the message.
    pub fn id(&self) -> (id: MessageId)
        ensures
            id == self.id,
    {
        self.id
    }

    /// Checksum salt of the message.
    pub fn crc_extra(&self) -> (crc_extra: CrcExtra)
        ensures
            crc_extra == self.crc_extra,
    {
        self.crc_extra
    }
}

/// A message that can be put into a frame.
pub trait Message {
    /// Identifier of the message.
    ///
    /// A message in verified code says what this and the next two are. The defaults say
    /// nothing.
    open spec fn spec_id(&self) -> MessageId {
        arbitrary()
    }

    /// Checksum salt of the message.
    open spec fn spec_crc_extra(&self) -> CrcExtra {
        arbitrary()
    }

    /// The payload bytes of the message for a protocol version, if it can be encoded for it.
    open spec fn spec_payload(&self, version: MavLinkVersion) -> Option<Seq<u8>> {
        arbitrary()
    }

    /// Identifier of the message.
    fn id(&self) -> (id: MessageId)
        ensures
            id == self.spec_id(),
    ;

    /// Checksum salt of the message.
    fn crc_extra(&self) -> (crc_extra: CrcExtra)
        ensures
            crc_extra == self.spec_crc_extra(),
    ;

    /// The payload of the message for a protocol version.
    fn encode(&self, version: MavLinkVersion) -> (r: Result<Payload, SpecError>)
        ensures
            r is Ok <==> self.spec_payload(version) is Some,
            r matches Ok(payload) ==> payload.wf() && payload.spec_id() == self.spec_id()
                && payload.spec_version() == version && Some(payload.spec_bytes())
                == self.spec_payload(version),
    ;
}

/// A set of messages. A value of the dialect is one of its messages.
pub trait Dialect: Sized {
    /// The checksum salt of the message with the given identifier, if the dialect has it.
    ///
    /// A dialect in verified code says what it is. The default says nothing.
    open spec fn spec_crc_extra(id: MessageId) -> Option<CrcExtra> {
        arbitrary()
    }

    /// What the dialect knows about the message with the given identifier. Fails with
    /// `NotInDialect` if it knows nothing.
    fn message_info(id: MessageId) -> (r: Result<MessageInfo, SpecError>)
        ensures
            match Self::spec_crc_extra(id) {
                Some(crc_extra) => r == Ok::<MessageInfo, SpecError>(
                    MessageInfo { id, crc_extra },
                ),
                None => r == Err::<MessageInfo, SpecError>(SpecError::NotInDialect(id)),
            },
    ;

    /// What the dialect reads from the payload of a message: the message, or why there is
    /// none.
    ///
    /// A dialect in verified code says what it is. The default says nothing.
    open spec fn spec_decode(id: MessageId, version: MavLinkVersion, bytes: Seq<u8>) -> Result<
        Self,
        SpecError,
    > {
        arbitrary()
    }

    /// The message that a payload carries. What comes back depends on the identifier, the
    /// version and the bytes of the payload, and on nothing else.
    fn decode(payload: &Payload) -> (r: Result<Self, SpecError>)
        ensures
            r == Self::spec_decode(payload.spec_id(), payload.spec_version(), payload.spec_bytes()),
    ;
}

} // verus!
