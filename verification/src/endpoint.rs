//! A MAVLink device: an identity and the sequence of the frames it sends.

use vstd::prelude::*;
use core::marker::PhantomData;
use crate::dialect::Message;
use crate::error::Error;
use crate::flags::lemma_with_signed_bit;
use crate::frame::{Frame, FrameView};
use crate::header::HeaderView;
use crate::marker::{MaybeVersioned, Versioned, Versionless, V1, V2};
use crate::sequencer::{advanced, Sequencer};
use crate::types::{
    Behold, ComponentId, CrcExtra, MavLinkVersion, MessageId, Sequence, SystemId,
};

verus! {

/// Identity of a MAVLink device: its system and its component.
#[derive(Clone, Copy, Debug, PartialEq, Eq, Hash, Structural)]
pub struct MavLinkId {
    /// Identifier of the system.
    pub system: SystemId,
    /// Identifier of the component.
    pub component: ComponentId,
}

impl MavLinkId {
    /// The identity of a component of a system.
    pub fn new(system: SystemId, component: ComponentId) -> (id: MavLinkId)
        ensures
            id.system == system,
            id.component == component,
    {
        MavLinkId { system, component }
    }
}

/// A MAVLink device that sends frames of the protocol versions that `V` takes.
#[derive(Debug)]
pub struct Endpoint<V: MaybeVersioned> {
    id: MavLinkId,
    sequencer: Sequencer,
    _version: PhantomData<V>,
}

impl Endpoint<Versionless> {
    /// An endpoint with the given identity whose sequence starts from zero.
    pub fn new<V: MaybeVersioned>(id: MavLinkId) -> (endpoint: Endpoint<V>)
        ensures
            endpoint.spec_id() == id,
            endpoint.spec_sequence() == 0,
    {
        Endpoint { id, sequencer: Sequencer::new(), _version: PhantomData }
    }

    /// An endpoint that sends `MAVLink 1` frames.
    pub fn v1(id: MavLinkId) -> (endpoint: Endpoint<V1>)
        ensures
            endpoint.spec_id() == id,
            endpoint.spec_sequence() == 0,
    {
        Endpoint::new(id)
    }

    /// An endpoint that sends `MAVLink 2` frames.
    pub fn v2(id: MavLinkId) -> (endpoint: Endpoint<V2>)
        ensures
            endpoint.spec_id() == id,
            endpoint.spec_sequence() == 0,
    {
        Endpoint::new(id)
    }

    /// An endpoint that sends frames of either version.
    pub fn versionless(id: MavLinkId) -> (endpoint: Endpoint<Versionless>)
        ensures
            endpoint.spec_id() == id,
            endpoint.spec_sequence() == 0,
    {
        Endpoint::new(id)
    }

    /// The next frame of this endpoint, of the version `V`, with `message` in it.
    ///
    /// A sequence number is used up whether the message can be encoded or not.
    pub fn next_frame<V: Versioned, M: Message>(&mut self, message: &M) -> (r: Result<
        Frame<Versionless>,
        Error,
    >)
        ensures
            final(self).spec_id() == old(self).spec_id(),
            final(self).spec_sequence() == advanced(old(self).spec_sequence(), 1),
            r is Ok <==> message.spec_payload(V::bound()->0) is Some,
            r matches Ok(frame) ==> is_frame_of(
                frame@,
                old(self).spec_id(),
                old(self).spec_sequence(),
                V::bound()->0,
                message.spec_id(),
                message.spec_crc_extra(),
                message.spec_payload(V::bound()->0)->0,
            ),
    {
        match self.make_next_frame::<V, M>(message) {
            Ok(frame) => Ok(frame.into_versionless()),
            Err(e) => Err(e),
        }
    }
}

/// Whether `frame` is the unsigned frame of the given sender, sequence number and version that
/// carries the given message.
pub open spec fn is_frame_of(
    frame: FrameView,
    id: MavLinkId,
    sequence: Sequence,
    version: MavLinkVersion,
    message_id: MessageId,
    crc_extra: CrcExtra,
    payload: Seq<u8>,
) -> bool {
    &&& frame.header == (HeaderView {
        version,
        payload_length: payload.len() as u8,
        incompat_flags: 0,
        compat_flags: 0,
        sequence,
        system_id: id.system,
        component_id: id.component,
        message_id,
    })
    &&& frame.payload == payload
    &&& frame.payload_id == message_id
    &&& frame.payload_version == version
    &&& frame.signature is None
    &&& frame.checksum == frame.crc(crc_extra)
}

impl<V: MaybeVersioned> Endpoint<V> {
    /// The identity.
    pub closed spec fn spec_id(&self) -> MavLinkId {
        self.id
    }

    /// The sequence number of the next frame.
    pub closed spec fn spec_sequence(&self) -> Sequence {
        self.sequencer@
    }

    /// The identity.
    pub fn id(&self) -> (id: MavLinkId)
        ensures
            id == self.spec_id(),
    {
        self.id
    }

    /// Identifier of the system.
    pub fn system_id(&self) -> (id: SystemId)
        ensures
            id == self.spec_id().system,
    {
        self.id.system
    }

    /// Identifier of the component.
    pub fn component_id(&self) -> (id: ComponentId)
        ensures
            id == self.spec_id().component,
    {
        self.id.component
    }

    /// Hands out the sequence number of the next frame and moves on by one.
    pub fn next_sequence(&mut self) -> (sequence: Sequence)
        ensures
            sequence == old(self).spec_sequence(),
            final(self).spec_sequence() == advanced(old(self).spec_sequence(), 1),
            final(self).spec_id() == old(self).spec_id(),
    {
        self.sequencer.next()
    }

    /// The sequencer.
    pub fn sequencer(&self) -> (sequencer: &Sequencer)
        ensures
            sequencer@ == self.spec_sequence(),
    {
        &self.sequencer
    }

    /// Skips `increment` sequence numbers and hands out the one reached.
    pub fn advance(&mut self, increment: Sequence) -> (sequence: Behold<Sequence>)
        ensures
            sequence@ == advanced(old(self).spec_sequence(), increment),
            final(self).spec_sequence() == advanced(old(self).spec_sequence(), increment),
            final(self).spec_id() == old(self).spec_id(),
    {
        self.sequencer.advance(increment)
    }

    /// An endpoint with the same identity and a sequence of its own that starts where this one
    /// stands.
    pub fn fork(&self) -> (endpoint: Endpoint<V>)
        ensures
            endpoint.spec_id() == self.spec_id(),
            endpoint.spec_sequence() == self.spec_sequence(),
    {
        Endpoint { id: self.id, sequencer: self.sequencer.fork(), _version: PhantomData }
    }

    /// Takes over the sequence number of `other`.
    pub fn sync<Version: MaybeVersioned>(&mut self, other: &Endpoint<Version>)
        ensures
            final(self).spec_sequence() == other.spec_sequence(),
            final(self).spec_id() == old(self).spec_id(),
    {
        self.sequencer.sync(other.sequencer())
    }

    fn make_next_frame<Version: Versioned, M: Message>(&mut self, message: &M) -> (r: Result<
        Frame<Version>,
        Error,
    >)
        ensures
            final(self).spec_id() == old(self).spec_id(),
            final(self).spec_sequence() == advanced(old(self).spec_sequence(), 1),
            r is Ok <==> message.spec_payload(Version::bound()->0) is Some,
            r matches Ok(frame) ==> frame.is_bound() && is_frame_of(
                frame@,
                old(self).spec_id(),
                old(self).spec_sequence(),
                Version::bound()->0,
                message.spec_id(),
                message.spec_crc_extra(),
                message.spec_payload(Version::bound()->0)->0,
            ),
    {
        let sequence = self.next_sequence();
        let builder = Frame::builder().sequence(sequence).system_id(self.system_id()).component_id(
            self.component_id(),
        ).version(Version::v());
        match builder.message(message) {
            Ok(builder) => {
                let frame = builder.build();
                proof {
                    lemma_with_signed_bit(0, false);
                }
                Ok(frame)
            },
            Err(e) => Err(e),
        }
    }
}

impl<V: Versioned> Endpoint<V> {
    /// The next frame of this endpoint with `message` in it.
    ///
    /// A sequence number is used up whether the message can be encoded or not.
    pub fn next_frame<M: Message>(&mut self, message: &M) -> (r: Result<Frame<V>, Error>)
        ensures
            final(self).spec_id() == old(self).spec_id(),
            final(self).spec_sequence() == advanced(old(self).spec_sequence(), 1),
            r is Ok <==> message.spec_payload(V::bound()->0) is Some,
            r matches Ok(frame) ==> frame.is_bound() && is_frame_of(
                frame@,
                old(self).spec_id(),
                old(self).spec_sequence(),
                V::bound()->0,
                message.spec_id(),
                message.spec_crc_extra(),
                message.spec_payload(V::bound()->0)->0,
            ),
    {
        self.make_next_frame::<V, M>(message)
    }
}

impl<V: MaybeVersioned> Clone for Endpoint<V> {
    /// An endpoint with the same identity and a sequence of its own that starts where this one
    /// stands.
    fn clone(&self) -> (endpoint: Endpoint<V>)
        ensures
            endpoint.spec_id() == self.spec_id(),
            endpoint.spec_sequence() == self.spec_sequence(),
    {
        Endpoint { id: self.id, sequencer: self.sequencer.clone(), _version: PhantomData }
    }
}

} // verus!
