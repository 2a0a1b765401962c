//! Builder of frames.

use vstd::prelude::*;
use core::marker::PhantomData;
use crate::dialect::Message;
use crate::endpoint::Endpoint;
use crate::error::Error;
use crate::flags::{lemma_with_signed_bit, with_signed_bit, CompatFlags, IncompatFlags};
use crate::frame::{Frame, FrameView};
use crate::header::HeaderView;
use crate::header_builder::{incompat_bits, HeaderBuilder};
use crate::marker::{
    HasCompId, HasCrcExtra, HasMsgId, HasPayload, HasPayloadLen, HasSignature, HasSysId, IsCompId,
    IsCrcExtra, IsMsgId, IsPayload, IsPayloadLen, IsSequenced, IsSigned, IsSysId, MaybeVersioned,
    NoCompId, NoCrcExtra, NoMsgId, NoPayload, NoPayloadLen, NoSysId, NotSequenced, NotSigned,
    Sequenced, Versioned, Versionless, V1, V2,
};
use crate::payload::{payload_bytes, Payload};
use crate::sequencer::advanced;
use crate::signature::Signature;
use crate::types::{
    Behold, ComponentId, CrcExtra, MavLinkVersion, MessageId, Sequence, SystemId, Unsafe,
};

verus! {

/// Builder of a [`Frame`].
///
/// The type parameters record the protocol version and which fields are set, so that a frame
/// can only be built once everything it needs is there: version, sequence number, system and
/// component, message, payload and checksum salt. What depends on a field is dropped when the
/// field is set: the signature with the sequence number, the system or the payload, and the
/// checksum salt and the signature with the message.
#[derive(Debug)]
pub struct FrameBuilder<
    V: MaybeVersioned,
    L: IsPayloadLen,
    Sq: IsSequenced,
    S: IsSysId,
    C: IsCompId,
    M: IsMsgId,
    P: IsPayload,
    E: IsCrcExtra,
    Sig: IsSigned,
> {
    /// The fields of the header.
    pub header_builder: HeaderBuilder<V, L, Sq, S, C, M>,
    /// The payload.
    pub payload: P,
    /// The checksum salt of the message.
    pub crc_extra: E,
    /// The signature.
    pub signature: Sig,
}

impl FrameBuilder<
    Versionless,
    NoPayloadLen,
    NotSequenced,
    NoSysId,
    NoCompId,
    NoMsgId,
    NoPayload,
    NoCrcExtra,
    NotSigned,
> {
    /// A builder with no field set.
    pub fn new() -> (builder: Self)
        ensures
            builder.header_builder.incompat_flags is None,
            builder.header_builder.compat_flags is None,
    {
        FrameBuilder {
            header_builder: HeaderBuilder::new(),
            payload: NoPayload,
            crc_extra: NoCrcExtra,
            signature: NotSigned,
        }
    }
}

impl<
    V: MaybeVersioned,
    L: IsPayloadLen,
    Sq: IsSequenced,
    S: IsSysId,
    C: IsCompId,
    M: IsMsgId,
    P: IsPayload,
    E: IsCrcExtra,
    Sig: IsSigned,
> FrameBuilder<V, L, Sq, S, C, M, P, E, Sig> {
    /// Sets the sequence number. A signature set before is dropped.
    pub fn sequence(self, sequence: Sequence) -> (builder: FrameBuilder<
        V,
        L,
        Sequenced,
        S,
        C,
        M,
        P,
        E,
        NotSigned,
    >)
        ensures
            builder.header_builder.payload_length == self.header_builder.payload_length,
            builder.header_builder.incompat_flags == self.header_builder.incompat_flags,
            builder.header_builder.compat_flags == self.header_builder.compat_flags,
            builder.header_builder.system_id == self.header_builder.system_id,
            builder.header_builder.component_id == self.header_builder.component_id,
            builder.header_builder.message_id == self.header_builder.message_id,
            builder.payload == self.payload,
            builder.crc_extra == self.crc_extra,
            builder.header_builder.sequence.0 == sequence,
    {
        FrameBuilder {
            header_builder: self.header_builder.sequence(sequence),
            payload: self.payload,
            crc_extra: self.crc_extra,
            signature: NotSigned,
        }
    }

    /// Sets the system identifier. A signature set before is dropped.
    pub fn system_id(self, system_id: SystemId) -> (builder: FrameBuilder<
        V,
        L,
        Sq,
        HasSysId,
        C,
        M,
        P,
        E,
        NotSigned,
    >)
        ensures
            builder.header_builder.payload_length == self.header_builder.payload_length,
            builder.header_builder.incompat_flags == self.header_builder.incompat_flags,
            builder.header_builder.compat_flags == self.header_builder.compat_flags,
            builder.header_builder.sequence == self.header_builder.sequence,
            builder.header_builder.component_id == self.header_builder.component_id,
            builder.header_builder.message_id == self.header_builder.message_id,
            builder.payload == self.payload,
            builder.crc_extra == self.crc_extra,
            builder.header_builder.system_id.0 == system_id,
    {
        FrameBuilder {
            header_builder: self.header_builder.system_id(system_id),
            payload: self.payload,
            crc_extra: self.crc_extra,
            signature: NotSigned,
        }
    }

    /// Sets the component identifier.
    pub fn component_id(self, component_id: ComponentId) -> (builder: FrameBuilder<
        V,
        L,
        Sq,
        S,
        HasCompId,
        M,
        P,
        E,
        Sig,
    >)
        ensures
            builder.header_builder.payload_length == self.header_builder.payload_length,
            builder.header_builder.incompat_flags == self.header_builder.incompat_flags,
            builder.header_builder.compat_flags == self.header_builder.compat_flags,
            builder.header_builder.sequence == self.header_builder.sequence,
            builder.header_builder.system_id == self.header_builder.system_id,
            builder.header_builder.message_id == self.header_builder.message_id,
            builder.payload == self.payload,
            builder.crc_extra == self.crc_extra,
            builder.signature == self.signature,
            builder.header_builder.component_id.0 == component_id,
    {
        FrameBuilder {
            header_builder: self.header_builder.component_id(component_id),
            payload: self.payload,
            crc_extra: self.crc_extra,
            signature: self.signature,
        }
    }
}

impl<
    V: MaybeVersioned,
    L: IsPayloadLen,
    Sq: IsSequenced,
    S: IsSysId,
    C: IsCompId,
    P: IsPayload,
    E: IsCrcExtra,
    Sig: IsSigned,
> FrameBuilder<V, L, Sq, S, C, NoMsgId, P, E, Sig> {
    /// Sets the message identifier. The checksum salt and a signature set before are dropped:
    /// they belong to a message.
    #[must_use]
    pub fn message_id(self, message_id: MessageId) -> (builder: FrameBuilder<
        V,
        L,
        Sq,
        S,
        C,
        HasMsgId,
        P,
        NoCrcExtra,
        NotSigned,
    >)
        ensures
            builder.header_builder.payload_length == self.header_builder.payload_length,
            builder.header_builder.incompat_flags == self.header_builder.incompat_flags,
            builder.header_builder.compat_flags == self.header_builder.compat_flags,
            builder.header_builder.sequence == self.header_builder.sequence,
            builder.header_builder.system_id == self.header_builder.system_id,
            builder.header_builder.component_id == self.header_builder.component_id,
            builder.payload == self.payload,
            builder.header_builder.message_id.0 == message_id,
    {
        FrameBuilder {
            header_builder: self.header_builder.message_id(message_id),
            payload: self.payload,
            crc_extra: NoCrcExtra,
            signature: NotSigned,
        }
    }
}

impl<
    V: Versioned,
    L: IsPayloadLen,
    Sq: IsSequenced,
    S: IsSysId,
    C: IsCompId,
    P: IsPayload,
    E: IsCrcExtra,
    Sig: IsSigned,
> FrameBuilder<V, L, Sq, S, C, HasMsgId, P, E, Sig> {
    /// Sets the payload, and with it the payload length. A signature set before is dropped.
    ///
    /// The payload is made from `bytes` for the version of the builder: at most 255 bytes are
    /// taken, and `MAVLink 2` drops trailing zeros.
    #[must_use]
    pub fn payload(self, bytes: &[u8]) -> (builder: FrameBuilder<
        V,
        HasPayloadLen,
        Sq,
        S,
        C,
        HasMsgId,
        HasPayload,
        E,
        NotSigned,
    >)
        ensures
            builder.header_builder.incompat_flags == self.header_builder.incompat_flags,
            builder.header_builder.compat_flags == self.header_builder.compat_flags,
            builder.header_builder.sequence == self.header_builder.sequence,
            builder.header_builder.system_id == self.header_builder.system_id,
            builder.header_builder.component_id == self.header_builder.component_id,
            builder.crc_extra == self.crc_extra,
            builder.header_builder.message_id.0 == self.header_builder.message_id.0,
            builder.payload.0.wf(),
            builder.payload.0.spec_id() == self.header_builder.message_id.0,
            builder.payload.0.spec_version() == V::bound()->0,
            builder.payload.0.spec_bytes() == payload_bytes(bytes@, V::bound()->0),
            builder.header_builder.payload_length.0
                == builder.payload.0.spec_bytes().len(),
    {
        let payload = Payload::new(self.header_builder.message_id.0, bytes, V::version());
        let id = payload.id();
        let length = payload.length();
        FrameBuilder {
            header_builder: self.header_builder.message_id(id).payload_length(length),
            payload: HasPayload(payload),
            crc_extra: self.crc_extra,
            signature: NotSigned,
        }
    }
}

impl<
    V: MaybeVersioned,
    L: IsPayloadLen,
    Sq: IsSequenced,
    S: IsSysId,
    C: IsCompId,
    M: IsMsgId,
    P: IsPayload,
    Sig: IsSigned,
> FrameBuilder<V, L, Sq, S, C, M, P, NoCrcExtra, Sig> {
    /// Sets the checksum salt of the message.
    pub fn crc_extra(self, crc_extra: CrcExtra) -> (builder: FrameBuilder<
        V,
        L,
        Sq,
        S,
        C,
        M,
        P,
        HasCrcExtra,
        Sig,
    >)
        ensures
            builder.header_builder.payload_length == self.header_builder.payload_length,
            builder.header_builder.incompat_flags == self.header_builder.incompat_flags,
            builder.header_builder.compat_flags == self.header_builder.compat_flags,
            builder.header_builder.sequence == self.header_builder.sequence,
            builder.header_builder.system_id == self.header_builder.system_id,
            builder.header_builder.component_id == self.header_builder.component_id,
            builder.header_builder.message_id == self.header_builder.message_id,
            builder.payload == self.payload,
            builder.signature == self.signature,
            builder.crc_extra.0 == crc_extra,
    {
        FrameBuilder {
            header_builder: self.header_builder,
            payload: self.payload,
            crc_extra: HasCrcExtra(crc_extra),
            signature: self.signature,
        }
    }
}

impl<
    L: IsPayloadLen,
    Sq: IsSequenced,
    S: IsSysId,
    C: IsCompId,
    M: IsMsgId,
    P: IsPayload,
    E: IsCrcExtra,
    Sig: IsSigned,
> FrameBuilder<Versionless, L, Sq, S, C, M, P, E, Sig> {
    /// Binds the builder to a protocol version. `MAVLink 1` has no flags, so binding to it drops
    /// them.
    pub fn version<Version: Versioned>(self, version: Version) -> (builder: FrameBuilder<
        Version,
        L,
        Sq,
        S,
        C,
        M,
        P,
        E,
        Sig,
    >)
        ensures
            builder.header_builder.payload_length == self.header_builder.payload_length,
            builder.header_builder.sequence == self.header_builder.sequence,
            builder.header_builder.system_id == self.header_builder.system_id,
            builder.header_builder.component_id == self.header_builder.component_id,
            builder.header_builder.message_id == self.header_builder.message_id,
            builder.payload == self.payload,
            builder.crc_extra == self.crc_extra,
            builder.signature == self.signature,
            Version::bound() == Some(MavLinkVersion::V1) ==> builder.header_builder.incompat_flags
                is None && builder.header_builder.compat_flags is None,
            Version::bound() != Some(MavLinkVersion::V1) ==> builder.header_builder.incompat_flags
                == self.header_builder.incompat_flags && builder.header_builder.compat_flags
                == self.header_builder.compat_flags,
    {
        FrameBuilder {
            header_builder: self.header_builder.version(version),
            payload: self.payload,
            crc_extra: self.crc_extra,
            signature: self.signature,
        }
    }

    /// Takes version, sequence number, system and component from an endpoint. The endpoint moves
    /// on to its next sequence number.
    pub fn endpoint<Version: Versioned>(
        self,
        endpoint: &mut Endpoint<Version>,
    ) -> (builder: FrameBuilder<
        Version,
        L,
        Sequenced,
        HasSysId,
        HasCompId,
        M,
        P,
        E,
        Sig,
    >)
        ensures
            builder.header_builder.payload_length == self.header_builder.payload_length,
            builder.header_builder.message_id == self.header_builder.message_id,
            builder.payload == self.payload,
            builder.crc_extra == self.crc_extra,
            builder.signature == self.signature,
            builder.header_builder.sequence.0 == old(endpoint).spec_sequence(),
            builder.header_builder.system_id.0 == old(endpoint).spec_id().system,
            builder.header_builder.component_id.0 == old(endpoint).spec_id().component,
            Version::bound() == Some(MavLinkVersion::V1) ==> builder.header_builder.incompat_flags
                is None && builder.header_builder.compat_flags is None,
            Version::bound() != Some(MavLinkVersion::V1) ==> builder.header_builder.incompat_flags
                == self.header_builder.incompat_flags && builder.header_builder.compat_flags
                == self.header_builder.compat_flags,
            final(endpoint).spec_id() == old(endpoint).spec_id(),
            final(endpoint).spec_sequence() == advanced(old(endpoint).spec_sequence(), 1),
    {
        let sequence = endpoint.next_sequence();
        let system_id = endpoint.system_id();
        let component_id = endpoint.component_id();
        FrameBuilder {
            header_builder: self.header_builder.version(Version::v()).sequence(sequence).system_id(
                system_id,
            ).component_id(component_id),
            payload: self.payload,
            crc_extra: self.crc_extra,
            signature: self.signature,
        }
    }
}

impl<
    L: IsPayloadLen,
    Sq: IsSequenced,
    S: IsSysId,
    C: IsCompId,
    M: IsMsgId,
    P: IsPayload,
    E: IsCrcExtra,
    Sig: IsSigned,
> FrameBuilder<V2, L, Sq, S, C, M, P, E, Sig> {
    /// Sets the incompatibility flags, except for the "signed" flag: that one says whether the
    /// builder holds a signature.
    pub fn incompat_flags(self, incompat_flags: IncompatFlags) -> (builder: FrameBuilder<
        V2,
        L,
        Sq,
        S,
        C,
        M,
        P,
        E,
        Sig,
    >)
        ensures
            builder.header_builder.payload_length == self.header_builder.payload_length,
            builder.header_builder.compat_flags == self.header_builder.compat_flags,
            builder.header_builder.sequence == self.header_builder.sequence,
            builder.header_builder.system_id == self.header_builder.system_id,
            builder.header_builder.component_id == self.header_builder.component_id,
            builder.header_builder.message_id == self.header_builder.message_id,
            builder.payload == self.payload,
            builder.crc_extra == self.crc_extra,
            builder.signature == self.signature,
            builder.header_builder.incompat_flags matches Some(flags) && flags@ == with_signed_bit(
                incompat_flags@,
                self.signature.spec_signature() is Some,
            ),
    {
        let signed = self.signature.is_signed();
        FrameBuilder {
            header_builder: self.header_builder.incompat_flags(incompat_flags).signed(signed),
            payload: self.payload,
            crc_extra: self.crc_extra,
            signature: self.signature,
        }
    }

    /// Sets the compatibility flags.
    pub fn compat_flags(self, compat_flags: CompatFlags) -> (builder: FrameBuilder<
        V2,
        L,
        Sq,
        S,
        C,
        M,
        P,
        E,
        Sig,
    >)
        ensures
            builder.header_builder.payload_length == self.header_builder.payload_length,
            builder.header_builder.incompat_flags == self.header_builder.incompat_flags,
            builder.header_builder.sequence == self.header_builder.sequence,
            builder.header_builder.system_id == self.header_builder.system_id,
            builder.header_builder.component_id == self.header_builder.component_id,
            builder.header_builder.message_id == self.header_builder.message_id,
            builder.payload == self.payload,
            builder.crc_extra == self.crc_extra,
            builder.signature == self.signature,
            builder.header_builder.compat_flags == Some(compat_flags),
    {
        FrameBuilder {
            header_builder: self.header_builder.compat_flags(compat_flags),
            payload: self.payload,
            crc_extra: self.crc_extra,
            signature: self.signature,
        }
    }

    /// Sets the signature and the "signed" flag.
    ///
    /// Nothing checks that the signature is the signature of the frame that will be built, so
    /// the builder comes wrapped.
    #[must_use]
    pub fn signature(self, signature: Signature) -> (builder: Unsafe<FrameBuilder<
        V2,
        L,
        Sq,
        S,
        C,
        M,
        P,
        E,
        HasSignature,
    >>)
        ensures
            builder@.header_builder.payload_length == self.header_builder.payload_length,
            builder@.header_builder.compat_flags == self.header_builder.compat_flags,
            builder@.header_builder.sequence == self.header_builder.sequence,
            builder@.header_builder.system_id == self.header_builder.system_id,
            builder@.header_builder.component_id == self.header_builder.component_id,
            builder@.header_builder.message_id == self.header_builder.message_id,
            builder@.payload == self.payload,
            builder@.crc_extra == self.crc_extra,
            builder@.signature.0 == signature,
            builder@.header_builder.incompat_flags matches Some(flags) && flags@ == with_signed_bit(
                incompat_bits(self.header_builder.incompat_flags),
                true,
            ),
    {
        Behold::new(
            FrameBuilder {
                header_builder: self.header_builder.signed(true),
                payload: self.payload,
                crc_extra: self.crc_extra,
                signature: HasSignature(signature),
            },
        )
    }
}

impl<
    V: Versioned,
    L: IsPayloadLen,
    Sq: IsSequenced,
    S: IsSysId,
    C: IsCompId,
    M: IsMsgId,
    P: IsPayload,
    E: IsCrcExtra,
    Sig: IsSigned,
> FrameBuilder<V, L, Sq, S, C, M, P, E, Sig> {
    /// Sets message identifier, payload, payload length and checksum salt from a message.
    ///
    /// Fails if the message cannot be encoded for the version of the builder.
    pub fn message<Msg: Message>(self, message: &Msg) -> (r: Result<
        FrameBuilder<
        V,
        HasPayloadLen,
        Sq,
        S,
        C,
        HasMsgId,
        HasPayload,
        HasCrcExtra,
        Sig,
    >,
        Error,
    >)
        ensures
            r is Ok <==> message.spec_payload(V::bound()->0) is Some,
            r matches Ok(builder) ==> {
                &&& builder.header_builder.incompat_flags == self.header_builder.incompat_flags
                &&& builder.header_builder.compat_flags == self.header_builder.compat_flags
                &&& builder.header_builder.sequence == self.header_builder.sequence
                &&& builder.header_builder.system_id == self.header_builder.system_id
                &&& builder.header_builder.component_id == self.header_builder.component_id
                &&& builder.signature == self.signature
                &&& builder.header_builder.message_id.0 == message.spec_id()
                &&& builder.crc_extra.0 == message.spec_crc_extra()
                &&& builder.payload.0.wf()
                &&& builder.payload.0.spec_id() == message.spec_id()
                &&& builder.payload.0.spec_version() == V::bound()->0
                &&& Some(builder.payload.0.spec_bytes()) == message.spec_payload(V::bound()->0)
                &&& builder.header_builder.payload_length.0
                    == builder.payload.0.spec_bytes().len()
            },
    {
        let payload = match message.encode(V::version()) {
            Ok(payload) => payload,
            Err(e) => {
                return Err(Error::from(e));
            },
        };
        let crc_extra = HasCrcExtra(message.crc_extra());
        let id = payload.id();
        let length = payload.length();
        Ok(
            FrameBuilder {
                header_builder: self.header_builder.message_id(id).payload_length(length),
                payload: HasPayload(payload),
                crc_extra,
                signature: self.signature,
            },
        )
    }
}

impl FrameBuilder<
    V1,
    HasPayloadLen,
    Sequenced,
    HasSysId,
    HasCompId,
    HasMsgId,
    HasPayload,
    HasCrcExtra,
    NotSigned,
> {
    /// Moves the builder from `MAVLink 1` to `MAVLink 2`.
    ///
    /// The payload keeps its bytes, the flags become empty, and everything else stays.
    pub fn upgrade(self) -> (builder: FrameBuilder<
        V2,
        HasPayloadLen,
        Sequenced,
        HasSysId,
        HasCompId,
        HasMsgId,
        HasPayload,
        HasCrcExtra,
        NotSigned,
    >)
        ensures
            builder.header_builder.sequence == self.header_builder.sequence,
            builder.header_builder.system_id == self.header_builder.system_id,
            builder.header_builder.component_id == self.header_builder.component_id,
            builder.header_builder.message_id == self.header_builder.message_id,
            builder.crc_extra == self.crc_extra,
            builder.header_builder.incompat_flags matches Some(flags) && flags@ == 0,
            builder.header_builder.compat_flags matches Some(flags) && flags@ == 0,
            builder.payload.0.wf(),
            builder.payload.0.spec_id() == self.payload.0.spec_id(),
            builder.payload.0.spec_bytes() == self.payload.0.spec_bytes(),
            builder.payload.0.spec_version() == MavLinkVersion::V2,
            builder.header_builder.payload_length.0 == builder.payload.0.spec_bytes().len(),
    {
        let payload = self.payload.0.upgraded();
        let length = payload.length();
        FrameBuilder {
            header_builder: HeaderBuilder {
                mavlink_version: PhantomData,
                payload_length: HasPayloadLen(length),
                incompat_flags: Some(IncompatFlags::default()),
                compat_flags: Some(CompatFlags::default()),
                sequence: self.header_builder.sequence,
                system_id: self.header_builder.system_id,
                component_id: self.header_builder.component_id,
                message_id: self.header_builder.message_id,
            },
            payload: HasPayload(payload),
            crc_extra: self.crc_extra,
            signature: NotSigned,
        }
    }
}

impl<V: Versioned, Sig: IsSigned> FrameBuilder<
    V,
    HasPayloadLen,
    Sequenced,
    HasSysId,
    HasCompId,
    HasMsgId,
    HasPayload,
    HasCrcExtra,
    Sig,
> {
    /// The signature that the frame built from this builder carries: the one of the builder,
    /// if the builder is one of `MAVLink 2`.
    pub open spec fn spec_signature(&self) -> Option<Signature> {
        if V::bound() == Some(MavLinkVersion::V2) {
            self.signature.spec_signature()
        } else {
            None
        }
    }

    /// Whether the fields of the builder agree with each other and the wire can carry them:
    /// the message identifier is that of the payload, the payload is one of the version of the
    /// builder, and the identifier fits into the header of that version.
    pub open spec fn is_consistent(&self) -> bool {
        &&& self.header_builder.spec_build().wf()
        &&& self.header_builder.message_id.0 == self.payload.0.spec_id()
        &&& V::bound() == Some(self.payload.0.spec_version())
        &&& self.spec_signature() matches Some(signature) ==> signature.timestamp.wf()
    }

    /// What the frame built from this builder holds, but for its checksum.
    ///
    /// The header says what the builder holds, with two exceptions: its payload length is the
    /// length of the payload, and its "signed" flag says whether the frame carries a signature.
    pub open spec fn spec_build(&self) -> FrameView {
        let built = HeaderView {
            payload_length: self.payload.0.spec_bytes().len() as u8,
            ..self.header_builder.spec_build()
        };
        FrameView {
            header: if built.version == MavLinkVersion::V2 {
                built.with_signed(self.spec_signature() is Some)
            } else {
                built
            },
            payload: self.payload.0.spec_bytes(),
            payload_id: self.payload.0.spec_id(),
            payload_version: self.payload.0.spec_version(),
            checksum: 0,
            signature: self.spec_signature(),
        }
    }

    /// The frame with the fields of this builder and the checksum computed from them.
    pub fn build(self) -> (frame: Frame<V>)
        ensures
            frame@ == (FrameView { checksum: frame@.checksum, ..self.spec_build() }),
            frame@.checksum == frame@.crc(self.crc_extra.0),
            frame@.header.sequence == self.header_builder.sequence.0,
            frame@.header.system_id == self.header_builder.system_id.0,
            frame@.header.component_id == self.header_builder.component_id.0,
            frame@.header.message_id == self.header_builder.message_id.0,
            frame@.header.payload_length == frame@.payload.len(),
            frame@.payload == self.payload.0.spec_bytes(),
            frame.is_bound(),
            self.is_consistent() ==> frame@.wf(),
    {
        let length = self.payload.0.length();
        let mut header = self.header_builder.payload_length(length).build();
        let signature = match header.version() {
            MavLinkVersion::V1 => None,
            MavLinkVersion::V2 => self.signature.signature(),
        };
        proof {
            lemma_with_signed_bit(header@.incompat_flags, signature is Some);
        }
        match header.version() {
            MavLinkVersion::V1 => {},
            MavLinkVersion::V2 => {
                header.set_is_signed(signature.is_some());
            },
        }
        let crc_extra = self.crc_extra.0;
        let mut frame = Frame::from_parts(header, self.payload.0, 0, signature);
        let checksum = frame.calculate_crc(crc_extra);
        frame.set_checksum(checksum);
        frame
    }
}

} // verus!
