//! Frame header: the fixed-size record that starts every frame.

use vstd::prelude::*;
use vstd::slice::slice_subrange;
use core::marker::PhantomData;
use crate::consts::{
    CHECKSUM_SIZE, HEADER_MAX_SIZE, HEADER_MIN_SIZE, HEADER_V1_SIZE, HEADER_V2_SIZE,
    MESSAGE_ID_V1_MAX, MESSAGE_ID_V2_MAX, SIGNATURE_LENGTH, STX_V1, STX_V2,
};
use crate::error::{IoError, IoErrorKind, VersionError};
use crate::flags::{signed_bit, with_signed_bit, CompatFlags, IncompatFlags};
use crate::header_builder::HeaderBuilder;
use crate::io::{Read, Write};
use crate::marker::{
    accepts_magic_byte, version_matches, HasCompId, HasMsgId, HasPayloadLen, HasSysId,
    MaybeVersioned, NoCompId, NoMsgId, NoPayloadLen, NoSysId, NotSequenced, Sequenced, Versioned,
    Versionless, V2,
};
use crate::stx::{stx_byte, version_of_byte};
use crate::types::{
    ComponentId, MavLinkVersion, MessageId, PayloadLength, Sequence, SystemId,
};

verus! {

/// Size of the header of a protocol version.
pub open spec fn header_size(version: MavLinkVersion) -> nat {
    match version {
        MavLinkVersion::V1 => HEADER_V1_SIZE as nat,
        MavLinkVersion::V2 => HEADER_V2_SIZE as nat,
    }
}

/// What a header says, as plain values.
pub struct HeaderView {
    /// Protocol version.
    pub version: MavLinkVersion,
    /// Number of payload bytes.
    pub payload_length: u8,
    /// Incompatibility flags (`MAVLink 2`).
    pub incompat_flags: u8,
    /// Compatibility flags (`MAVLink 2`).
    pub compat_flags: u8,
    /// Sequence number of the frame.
    pub sequence: u8,
    /// System that sent the frame.
    pub system_id: u8,
    /// Component that sent the frame.
    pub component_id: u8,
    /// Identifier of the message.
    pub message_id: u32,
}

impl HeaderView {
    /// Size of the header on the wire.
    pub open spec fn size(self) -> nat {
        header_size(self.version)
    }

    /// Whether the header announces a signature.
    pub open spec fn is_signed(self) -> bool {
        self.version == MavLinkVersion::V2 && signed_bit(self.incompat_flags)
    }

    /// Number of bytes that follow the header: payload, checksum and, if announced, signature.
    pub open spec fn body_length(self) -> nat {
        if self.is_signed() {
            (self.payload_length + CHECKSUM_SIZE + SIGNATURE_LENGTH) as nat
        } else {
            (self.payload_length + CHECKSUM_SIZE) as nat
        }
    }

    /// The header on the wire.
    pub open spec fn bytes(self) -> Seq<u8> {
        match self.version {
            MavLinkVersion::V1 => seq![
                STX_V1,
                self.payload_length,
                self.sequence,
                self.system_id,
                self.component_id,
                (self.message_id % 256) as u8,
            ],
            MavLinkVersion::V2 => seq![
                STX_V2,
                self.payload_length,
                self.incompat_flags,
                self.compat_flags,
                self.sequence,
                self.system_id,
                self.component_id,
                (self.message_id % 256) as u8,
                ((self.message_id / 256) % 256) as u8,
                ((self.message_id / 65536) % 256) as u8,
            ],
        }
    }

    /// Whether the wire can carry everything the header says: a `MAVLink 1` header has no
    /// flags and a one-byte message identifier, a `MAVLink 2` header a three-byte one.
    pub open spec fn wf(self) -> bool {
        match self.version {
            MavLinkVersion::V1 => self.message_id <= MESSAGE_ID_V1_MAX && self.incompat_flags == 0
                && self.compat_flags == 0,
            MavLinkVersion::V2 => self.message_id < MESSAGE_ID_V2_MAX,
        }
    }

    /// This header with the "signed" flag set to `flag` and everything else kept.
    pub open spec fn with_signed(self, flag: bool) -> HeaderView {
        HeaderView { incompat_flags: with_signed_bit(self.incompat_flags, flag), ..self }
    }
}

/// The header that bytes from the wire spell, given that they start with the marker of a
/// protocol version and are as many as the header of that version has.
pub open spec fn parse_header(bytes: Seq<u8>) -> HeaderView {
    if bytes[0] == STX_V1 {
        HeaderView {
            version: MavLinkVersion::V1,
            payload_length: bytes[1],
            incompat_flags: 0,
            compat_flags: 0,
            sequence: bytes[2],
            system_id: bytes[3],
            component_id: bytes[4],
            message_id: bytes[5] as u32,
        }
    } else {
        HeaderView {
            version: MavLinkVersion::V2,
            payload_length: bytes[1],
            incompat_flags: bytes[2],
            compat_flags: bytes[3],
            sequence: bytes[4],
            system_id: bytes[5],
            component_id: bytes[6],
            message_id: (bytes[7] + bytes[8] * 256 + bytes[9] * 65536) as u32,
        }
    }
}

/// A header that the wire can carry is the header that its bytes spell, and the bytes are as
/// many as the header of its version has and start with the marker of its version.
pub proof fn lemma_header_round_trip(header: HeaderView)
    requires
        header.wf(),
    ensures
        parse_header(header.bytes()) == header,
        header.bytes().len() == header.size(),
        header.bytes()[0] == stx_byte(header.version),
{
}

/// Bytes that start with a marker and have the size of a header are the bytes of the header
/// that they spell, and that header is one that the wire can carry.
pub proof fn lemma_header_bytes_round_trip(bytes: Seq<u8>)
    requires
        version_of_byte(bytes[0]) matches Some(version) && bytes.len() == header_size(version),
    ensures
        parse_header(bytes).wf(),
        parse_header(bytes).bytes() == bytes,
        version_of_byte(bytes[0]) == Some(parse_header(bytes).version),
{
    let header = parse_header(bytes);
    assert(header.bytes() =~= bytes);
}

/// The bytes of an encoded header.
#[derive(Clone, Copy, Debug)]
pub struct HeaderBytes {
    buffer: [u8; HEADER_MAX_SIZE],
    size: usize,
}

impl HeaderBytes {
    #[verifier::type_invariant]
    closed spec fn has_header_size(self) -> bool {
        self.size == HEADER_V1_SIZE || self.size == HEADER_V2_SIZE
    }

    /// The bytes.
    pub closed spec fn view(&self) -> Seq<u8> {
        self.buffer@.take(self.size as int)
    }

    /// The bytes, magic byte included.
    pub fn as_slice(&self) -> (bytes: &[u8])
        ensures
            bytes@ == self@,
            bytes@.len() == HEADER_V1_SIZE || bytes@.len() == HEADER_V2_SIZE,
    {
        proof {
            use_type_invariant(self);
        }
        slice_subrange(self.buffer.as_slice(), 0, self.size)
    }

    /// Number of bytes.
    pub fn size(&self) -> (size: usize)
        ensures
            size == self@.len(),
            size == HEADER_V1_SIZE || size == HEADER_V2_SIZE,
    {
        proof {
            use_type_invariant(self);
        }
        self.size
    }

    /// The bytes that go into the checksum: all but the magic byte.
    pub fn crc_data(&self) -> (bytes: &[u8])
        ensures
            bytes@ == self@.skip(1),
    {
        proof {
            use_type_invariant(self);
        }
        let bytes = slice_subrange(self.buffer.as_slice(), 1, self.size);
        assert(bytes@ =~= self@.skip(1));
        bytes
    }
}

/// Frame header.
///
/// `V` says which protocol versions the holder of the header is bound to.
#[derive(Copy, Debug)]
pub struct Header<V: MaybeVersioned> {
    version: MavLinkVersion,
    payload_length: PayloadLength,
    incompat_flags: IncompatFlags,
    compat_flags: CompatFlags,
    sequence: Sequence,
    system_id: SystemId,
    component_id: ComponentId,
    message_id: MessageId,
    _marker_version: PhantomData<V>,
}

impl<V: MaybeVersioned> Header<V> {
    #[verifier::type_invariant]
    closed spec fn has_version_of_marker(self) -> bool {
        version_matches(V::bound(), self.version)
    }

    /// What the header says.
    pub closed spec fn view(&self) -> HeaderView {
        HeaderView {
            version: self.version,
            payload_length: self.payload_length,
            incompat_flags: self.incompat_flags@,
            compat_flags: self.compat_flags@,
            sequence: self.sequence,
            system_id: self.system_id,
            component_id: self.component_id,
            message_id: self.message_id,
        }
    }

    /// Whether the version of the header is one that `V` takes.
    pub open spec fn is_bound(&self) -> bool {
        version_matches(V::bound(), self@.version)
    }

    /// A header that says what `view` says.
    pub(crate) fn from_parts(
        version: MavLinkVersion,
        payload_length: PayloadLength,
        incompat_flags: IncompatFlags,
        compat_flags: CompatFlags,
        sequence: Sequence,
        system_id: SystemId,
        component_id: ComponentId,
        message_id: MessageId,
    ) -> (header: Header<V>)
        requires
            version_matches(V::bound(), version),
        ensures
            header.is_bound(),
            header@ == (HeaderView {
                version,
                payload_length,
                incompat_flags: incompat_flags@,
                compat_flags: compat_flags@,
                sequence,
                system_id,
                component_id,
                message_id,
            }),
    {
        Header {
            version,
            payload_length,
            incompat_flags,
            compat_flags,
            sequence,
            system_id,
            component_id,
            message_id,
            _marker_version: PhantomData,
        }
    }

    /// Protocol version. It is one that `V` takes.
    pub fn version(&self) -> (version: MavLinkVersion)
        ensures
            version == self@.version,
            self.is_bound(),
    {
        proof {
            use_type_invariant(self);
        }
        self.version
    }

    /// Protocol version.
    pub fn mavlink_version(&self) -> (version: MavLinkVersion)
        ensures
            version == self@.version,
    {
        self.version
    }

    /// Number of payload bytes.
    pub fn payload_length(&self) -> (length: PayloadLength)
        ensures
            length == self@.payload_length,
    {
        self.payload_length
    }

    /// Sequence number of the frame.
    pub fn sequence(&self) -> (sequence: Sequence)
        ensures
            sequence == self@.sequence,
    {
        self.sequence
    }

    /// System that sent the frame.
    pub fn system_id(&self) -> (id: SystemId)
        ensures
            id == self@.system_id,
    {
        self.system_id
    }

    /// Component that sent the frame.
    pub fn component_id(&self) -> (id: ComponentId)
        ensures
            id == self@.component_id,
    {
        self.component_id
    }

    /// Identifier of the message.
    pub fn message_id(&self) -> (id: MessageId)
        ensures
            id == self@.message_id,
    {
        self.message_id
    }

    /// Size of the header on the wire.
    pub fn size(&self) -> (size: usize)
        ensures
            size == self@.size(),
    {
        match self.version {
            MavLinkVersion::V1 => HEADER_V1_SIZE,
            MavLinkVersion::V2 => HEADER_V2_SIZE,
        }
    }

    /// Whether the header announces a signature. A `MAVLink 1` header never does.
    pub fn is_signed(&self) -> (signed: bool)
        ensures
            signed == self@.is_signed(),
    {
        match self.version {
            MavLinkVersion::V1 => false,
            MavLinkVersion::V2 => self.incompat_flags.is_signed(),
        }
    }

    /// Sets or clears the flag that announces a signature. Every other flag stays.
    pub fn set_is_signed(&mut self, flag: bool)
        ensures
            final(self)@ == old(self)@.with_signed(flag),
    {
        proof {
            use_type_invariant(&*self);
        }
        self.incompat_flags = self.incompat_flags.with_signed(flag);
    }

    /// Replaces the incompatibility flags.
    pub(crate) fn set_incompat_flags(&mut self, flags: IncompatFlags)
        ensures
            final(self)@ == (HeaderView { incompat_flags: flags@, ..old(self)@ }),
    {
        proof {
            use_type_invariant(&*self);
        }
        self.incompat_flags = flags;
    }

    /// Replaces the compatibility flags.
    pub(crate) fn set_compat_flags(&mut self, flags: CompatFlags)
        ensures
            final(self)@ == (HeaderView { compat_flags: flags@, ..old(self)@ }),
    {
        proof {
            use_type_invariant(&*self);
        }
        self.compat_flags = flags;
    }

    /// The incompatibility flags as they are stored, whatever the version.
    pub(crate) fn stored_incompat_flags(&self) -> (flags: IncompatFlags)
        ensures
            flags@ == self@.incompat_flags,
    {
        self.incompat_flags
    }

    /// The compatibility flags as they are stored, whatever the version.
    pub(crate) fn stored_compat_flags(&self) -> (flags: CompatFlags)
        ensures
            flags@ == self@.compat_flags,
    {
        self.compat_flags
    }

    /// Number of bytes that follow the header: payload, checksum and, if announced, signature.
    pub fn body_length(&self) -> (length: usize)
        ensures
            length == self@.body_length(),
    {
        match self.version {
            MavLinkVersion::V1 => self.payload_length as usize + CHECKSUM_SIZE,
            MavLinkVersion::V2 => {
                if self.is_signed() {
                    self.payload_length as usize + CHECKSUM_SIZE + SIGNATURE_LENGTH
                } else {
                    self.payload_length as usize + CHECKSUM_SIZE
                }
            },
        }
    }

    /// The header as bytes for the wire.
    pub fn decode(&self) -> (bytes: HeaderBytes)
        ensures
            bytes@ == self@.bytes(),
    {
        let mut buffer = [0u8; HEADER_MAX_SIZE];
        match self.version {
            MavLinkVersion::V1 => {
                self.dump_v1_bytes(&mut buffer);
            },
            MavLinkVersion::V2 => {
                self.dump_v2_bytes(&mut buffer);
            },
        }
        let bytes = HeaderBytes { buffer, size: self.size() };
        assert(bytes@ =~= self@.bytes());
        bytes
    }

    fn dump_v1_bytes(&self, buffer: &mut [u8; HEADER_MAX_SIZE])
        ensures
            final(buffer)@.take(6) == (HeaderView {
                version: MavLinkVersion::V1,
                ..self@
            }).bytes(),
    {
        buffer[0] = STX_V1;
        buffer[1] = self.payload_length;
        buffer[2] = self.sequence;
        buffer[3] = self.system_id;
        buffer[4] = self.component_id;
        buffer[5] = (self.message_id % 256) as u8;
        assert(buffer@.take(6) =~= (HeaderView { version: MavLinkVersion::V1, ..self@ }).bytes());
    }

    fn dump_v2_bytes(&self, buffer: &mut [u8; HEADER_MAX_SIZE])
        ensures
            final(buffer)@.take(10) == (HeaderView {
                version: MavLinkVersion::V2,
                ..self@
            }).bytes(),
    {
        buffer[0] = STX_V2;
        buffer[1] = self.payload_length;
        buffer[2] = self.incompat_flags.bits();
        buffer[3] = self.compat_flags.bits();
        buffer[4] = self.sequence;
        buffer[5] = self.system_id;
        buffer[6] = self.component_id;
        buffer[7] = (self.message_id % 256) as u8;
        buffer[8] = ((self.message_id / 256) % 256) as u8;
        buffer[9] = ((self.message_id / 65536) % 256) as u8;
        assert(buffer@.take(10) =~= (HeaderView { version: MavLinkVersion::V2, ..self@ }).bytes());
    }

    /// The same header bound to `Version`, if `Version` takes its protocol version.
    pub fn try_into_versioned<Version: MaybeVersioned>(self) -> (r: Result<
        Header<Version>,
        VersionError,
    >)
        ensures
            r is Ok <==> version_matches(Version::bound(), self@.version),
            r matches Ok(header) ==> header@ == self@,
            r matches Err(e) ==> Version::bound() == Some(e.expected) && e.actual
                == self@.version,
    {
        match Version::expect(self.version) {
            Ok(_) => {},
            Err(e) => {
                return Err(e);
            },
        }
        Ok(
            Header {
                version: self.version,
                payload_length: self.payload_length,
                incompat_flags: self.incompat_flags,
                compat_flags: self.compat_flags,
                sequence: self.sequence,
                system_id: self.system_id,
                component_id: self.component_id,
                message_id: self.message_id,
                _marker_version: PhantomData,
            },
        )
    }

    /// A copy of the header bound to `Version`, if `Version` takes its protocol version.
    pub fn try_to_versioned<Version: MaybeVersioned>(&self) -> (r: Result<
        Header<Version>,
        VersionError,
    >)
        ensures
            r is Ok <==> version_matches(Version::bound(), self@.version),
            r matches Ok(header) ==> header@ == self@,
            r matches Err(e) ==> Version::bound() == Some(e.expected) && e.actual
                == self@.version,
    {
        self.to_versionless().try_into_versioned::<Version>()
    }

    /// The same header bound to `Version`, which takes its protocol version.
    pub(crate) fn rebind<Version: MaybeVersioned>(self) -> (header: Header<Version>)
        requires
            version_matches(Version::bound(), self@.version),
        ensures
            header@ == self@,
            header.is_bound(),
    {
        Header {
            version: self.version,
            payload_length: self.payload_length,
            incompat_flags: self.incompat_flags,
            compat_flags: self.compat_flags,
            sequence: self.sequence,
            system_id: self.system_id,
            component_id: self.component_id,
            message_id: self.message_id,
            _marker_version: PhantomData,
        }
    }

    /// The same header bound to no version.
    pub fn into_versionless(self) -> (header: Header<Versionless>)
        ensures
            header@ == self@,
            header.is_bound(),
    {
        Header {
            version: self.version,
            payload_length: self.payload_length,
            incompat_flags: self.incompat_flags,
            compat_flags: self.compat_flags,
            sequence: self.sequence,
            system_id: self.system_id,
            component_id: self.component_id,
            message_id: self.message_id,
            _marker_version: PhantomData,
        }
    }

    /// A copy of the header bound to no version.
    pub fn to_versionless(&self) -> (header: Header<Versionless>)
        ensures
            header@ == self@,
            header.is_bound(),
    {
        Header {
            version: self.version,
            payload_length: self.payload_length,
            incompat_flags: self.incompat_flags,
            compat_flags: self.compat_flags,
            sequence: self.sequence,
            system_id: self.system_id,
            component_id: self.component_id,
            message_id: self.message_id,
            _marker_version: PhantomData,
        }
    }

    /// Reads the next header from a stream, skipping what does not start a packet.
    ///
    /// On success the header is the one that [`scan_header`] finds, and the stream stands
    /// behind it. A reliable reader fails exactly if the stream ends before a header is
    /// complete.
    pub fn recv<R: Read>(reader: &mut R) -> (r: Result<Header<V>, IoError>)
        ensures
            final(reader).reliable() == old(reader).reliable(),
            r matches Ok(header) ==> scan_header(V::bound(), old(reader).stream()) matches Some(
                found,
            ) && header@ == parse_header(found.0) && final(reader).stream() == found.1
                && header.is_bound(),
            old(reader).reliable() ==> (r is Ok <==> scan_header(
                V::bound(),
                old(reader).stream(),
            ) is Some),
            old(reader).reliable() ==> (r matches Err(e) ==> e.spec_kind()
                == IoErrorKind::UnexpectedEof),
    {
        loop
            invariant
                reader.reliable() == old(reader).reliable(),
                scan_header(V::bound(), reader.stream()) == scan_header(
                    V::bound(),
                    old(reader).stream(),
                ),
            decreases reader.stream().len(),
        {
            let ghost stream = reader.stream();
            let mut buffer = [0u8; HEADER_MIN_SIZE];
            match reader.read_exact(&mut buffer) {
                Ok(_) => {},
                Err(e) => {
                    return Err(e);
                },
            }
            proof {
                lemma_magic_position(V::bound(), buffer@);
            }
            match HeaderStart::<V>::from_slice(buffer.as_slice()) {
                Some(mut start) => {
                    let remaining = start.remaining();
                    let ghost position = magic_position(V::bound(), buffer@);
                    if remaining > 0 {
                        let mut rest: Vec<u8> = vec![0u8; remaining];
                        match reader.read_exact(rest.as_mut_slice()) {
                            Ok(_) => {},
                            Err(e) => {
                                return Err(e);
                            },
                        }
                        start.complete(rest.as_slice());
                    }
                    let bytes = start.header_bytes();
                    proof {
                        let size = header_size(version_of_byte(buffer@[position as int])->0);
                        let end = (position + size) as int;
                        assert(bytes@ =~= stream.subrange(position as int, end));
                        assert(reader.stream() =~= stream.skip((position + size) as int));
                        assert(bytes@.take(size as int) =~= bytes@);
                    }
                    return Header::<V>::try_from_slice(bytes);
                },
                None => {},
            }
        }
    }

    /// Writes the header to a stream and says how many bytes it wrote.
    ///
    /// A reliable writer takes the header exactly if it has room for it, and fails with
    /// `UnexpectedEof`, nothing written, if it has not.
    pub fn send<W: Write>(&self, writer: &mut W) -> (r: Result<usize, IoError>)
        ensures
            r matches Ok(size) ==> size == self@.size(),
            r is Ok ==> final(writer).written() == old(writer).written() + self@.bytes(),
            final(writer).reliable() == old(writer).reliable(),
            old(writer).reliable() ==> (r is Ok <==> self@.size() <= old(writer).room()),
            old(writer).reliable() && r is Ok ==> final(writer).room() == old(writer).room()
                - self@.size(),
            old(writer).reliable() ==> (r matches Err(e) ==> e.spec_kind()
                == IoErrorKind::UnexpectedEof),
            old(writer).reliable() && r is Err ==> final(writer).written()
                == old(writer).written() && final(writer).room() == old(writer).room(),
    {
        let bytes = self.decode();
        match writer.write_all(bytes.as_slice()) {
            Ok(_) => Ok(self.size()),
            Err(e) => Err(e),
        }
    }

    /// The header that `bytes` start with.
    ///
    /// A first byte, if there is one, has to be a magic byte that `V` takes. Fails with
    /// `UnexpectedEof` if the bytes are fewer than the header of that version has, and so if
    /// there are none. Bytes past the header are not looked at.
    pub fn try_from_slice(bytes: &[u8]) -> (r: Result<Header<V>, IoError>)
        requires
            bytes@.len() >= 1 ==> V::spec_is_magic_byte(bytes@[0]),
        ensures
            r is Ok <==> bytes@.len() >= 1 && bytes@.len() >= header_size(
                version_of_byte(bytes@[0])->0,
            ),
            r matches Ok(header) ==> version_of_byte(bytes@[0]) == Some(header@.version)
                && header@ == parse_header(bytes@.take(header_size(header@.version) as int))
                && header.is_bound(),
            r matches Err(e) ==> e.spec_kind() == IoErrorKind::UnexpectedEof,
    {
        if bytes.len() == 0 {
            return Err(IoError::new(IoErrorKind::UnexpectedEof));
        }
        proof {
            V::magic_byte_follows_bound(bytes@[0]);
        }
        let magic = bytes[0];
        if magic == STX_V1 {
            if bytes.len() < HEADER_V1_SIZE {
                return Err(IoError::new(IoErrorKind::UnexpectedEof));
            }
            Ok(
                Header {
                    version: MavLinkVersion::V1,
                    payload_length: bytes[1],
                    incompat_flags: IncompatFlags::default(),
                    compat_flags: CompatFlags::default(),
                    sequence: bytes[2],
                    system_id: bytes[3],
                    component_id: bytes[4],
                    message_id: bytes[5] as u32,
                    _marker_version: PhantomData,
                },
            )
        } else {
            if bytes.len() < HEADER_V2_SIZE {
                return Err(IoError::new(IoErrorKind::UnexpectedEof));
            }
            Ok(
                Header {
                    version: MavLinkVersion::V2,
                    payload_length: bytes[1],
                    incompat_flags: IncompatFlags::from_bits_truncate(bytes[2]),
                    compat_flags: CompatFlags::from_bits_truncate(bytes[3]),
                    sequence: bytes[4],
                    system_id: bytes[5],
                    component_id: bytes[6],
                    message_id: bytes[7] as u32 + bytes[8] as u32 * 256 + bytes[9] as u32 * 65536,
                    _marker_version: PhantomData,
                },
            )
        }
    }
}

impl<V: MaybeVersioned> Clone for Header<V> {
    /// A header that says the same.
    fn clone(&self) -> (header: Header<V>)
        ensures
            header@ == self@,
    {
        proof {
            use_type_invariant(self);
        }
        Header {
            version: self.version,
            payload_length: self.payload_length,
            incompat_flags: self.incompat_flags,
            compat_flags: self.compat_flags,
            sequence: self.sequence,
            system_id: self.system_id,
            component_id: self.component_id,
            message_id: self.message_id,
            _marker_version: PhantomData,
        }
    }
}

impl<V: Versioned> Header<V> {
    /// A builder that holds every field of this header, with the "signed" flag cleared.
    pub fn to_builder(&self) -> (builder: HeaderBuilder<
        V,
        HasPayloadLen,
        Sequenced,
        HasSysId,
        HasCompId,
        HasMsgId,
    >)
        ensures
            builder.payload_length.0 == self@.payload_length,
            builder.sequence.0 == self@.sequence,
            builder.system_id.0 == self@.system_id,
            builder.component_id.0 == self@.component_id,
            builder.message_id.0 == self@.message_id,
            builder.incompat_flags matches Some(flags) && flags@ == with_signed_bit(
                self@.incompat_flags,
                false,
            ),
            builder.compat_flags matches Some(flags) && flags@ == self@.compat_flags,
    {
        HeaderBuilder {
            mavlink_version: PhantomData,
            payload_length: HasPayloadLen(self.payload_length),
            incompat_flags: Some(self.incompat_flags.with_signed(false)),
            compat_flags: Some(self.compat_flags),
            sequence: Sequenced(self.sequence),
            system_id: HasSysId(self.system_id),
            component_id: HasCompId(self.component_id),
            message_id: HasMsgId(self.message_id),
        }
    }
}

impl Header<V2> {
    /// Incompatibility flags.
    pub fn incompat_flags(&self) -> (flags: IncompatFlags)
        ensures
            flags@ == self@.incompat_flags,
    {
        self.incompat_flags
    }

    /// Compatibility flags.
    pub fn compat_flags(&self) -> (flags: CompatFlags)
        ensures
            flags@ == self@.compat_flags,
    {
        self.compat_flags
    }
}

impl Header<Versionless> {
    /// A builder with no field set.
    pub fn builder() -> (builder: HeaderBuilder<
        Versionless,
        NoPayloadLen,
        NotSequenced,
        NoSysId,
        NoCompId,
        NoMsgId,
    >)
        ensures
            builder.incompat_flags is None,
            builder.compat_flags is None,
    {
        HeaderBuilder::new()
    }

    /// Incompatibility flags, which only a `MAVLink 2` header has.
    pub fn incompat_flags(&self) -> (flags: Option<IncompatFlags>)
        ensures
            flags is Some <==> self@.version == MavLinkVersion::V2,
            flags matches Some(f) ==> f@ == self@.incompat_flags,
    {
        match self.version {
            MavLinkVersion::V1 => None,
            MavLinkVersion::V2 => Some(self.incompat_flags),
        }
    }

    /// Compatibility flags, which only a `MAVLink 2` header has.
    pub fn compat_flags(&self) -> (flags: Option<CompatFlags>)
        ensures
            flags is Some <==> self@.version == MavLinkVersion::V2,
            flags matches Some(f) ==> f@ == self@.compat_flags,
    {
        match self.version {
            MavLinkVersion::V1 => None,
            MavLinkVersion::V2 => Some(self.compat_flags),
        }
    }
}

/// What the scanner finds in a stream: the bytes of the first header and what follows them.
///
/// The scanner takes the stream in chunks of six bytes. A chunk without a magic byte is junk
/// and dropped. In a chunk with a magic byte, everything before the first one is junk, and the
/// header starts there. Nothing is found if the stream ends before a header is complete.
pub open spec fn scan_header(bound: Option<MavLinkVersion>, stream: Seq<u8>) -> Option<
    (Seq<u8>, Seq<u8>),
>
    decreases stream.len(),
{
    if stream.len() < HEADER_MIN_SIZE {
        None
    } else {
        let chunk = stream.take(HEADER_MIN_SIZE as int);
        let start = magic_position(bound, chunk);
        if start >= HEADER_MIN_SIZE {
            scan_header(bound, stream.skip(HEADER_MIN_SIZE as int))
        } else {
            let end = start + header_size(version_of_byte(chunk[start as int])->0);
            if stream.len() < end {
                None
            } else {
                Some((stream.subrange(start as int, end as int), stream.skip(end as int)))
            }
        }
    }
}

/// Position of the first byte of `chunk` that something bound to `bound` takes for a start of a
/// packet, or the length of `chunk` if there is none.
pub open spec fn magic_position(bound: Option<MavLinkVersion>, chunk: Seq<u8>) -> nat
    decreases chunk.len(),
{
    if chunk.len() == 0 {
        0
    } else if accepts_magic_byte(bound, chunk[0]) {
        0
    } else {
        1 + magic_position(bound, chunk.skip(1))
    }
}

/// The position is within the chunk or at its end, no byte before it is a start of a packet,
/// and the byte at it is one.
pub proof fn lemma_magic_position(bound: Option<MavLinkVersion>, chunk: Seq<u8>)
    ensures
        magic_position(bound, chunk) <= chunk.len(),
        forall|i: int|
            0 <= i < magic_position(bound, chunk) ==> !accepts_magic_byte(bound, chunk[i]),
        magic_position(bound, chunk) < chunk.len() ==> accepts_magic_byte(
            bound,
            chunk[magic_position(bound, chunk) as int],
        ),
    decreases chunk.len(),
{
    if chunk.len() > 0 && !accepts_magic_byte(bound, chunk[0]) {
        let rest = chunk.skip(1);
        lemma_magic_position(bound, rest);
        assert forall|i: int| 0 <= i < magic_position(bound, chunk) implies !accepts_magic_byte(
            bound,
            chunk[i],
        ) by {
            if i > 0 {
                assert(rest[i - 1] == chunk[i]);
            }
        }
    }
}

/// The start of a header found in a chunk of a byte stream.
///
/// The scanner reads the stream in chunks of six bytes. A chunk with a magic byte at position
/// `k` holds the first `6 - k` bytes of a header; the rest has to be read.
#[derive(Debug)]
pub struct HeaderStart<V: MaybeVersioned> {
    buffer: [u8; HEADER_MAX_SIZE],
    n_bytes_read: usize,
    n_bytes_left: usize,
    _marker_version: PhantomData<V>,
}

impl<V: MaybeVersioned> HeaderStart<V> {
    #[verifier::type_invariant]
    closed spec fn is_a_start(self) -> bool {
        &&& 1 <= self.n_bytes_read
        &&& V::spec_is_magic_byte(self.buffer@[0])
        &&& version_of_byte(self.buffer@[0]) matches Some(version) && self.n_bytes_read
            + self.n_bytes_left == header_size(version)
    }

    /// The bytes of the header that are there.
    pub closed spec fn spec_bytes(&self) -> Seq<u8> {
        self.buffer@.take(self.n_bytes_read as int)
    }

    /// Number of bytes of the header that are still to come.
    pub closed spec fn spec_remaining(&self) -> nat {
        self.n_bytes_left as nat
    }

    /// Whether this is the start of a header: it begins with a magic byte that `V` takes, and
    /// what is there and what is to come add up to a header of the version of that byte.
    pub open spec fn wf(&self) -> bool {
        &&& self.spec_bytes().len() >= 1
        &&& V::spec_is_magic_byte(self.spec_bytes()[0])
        &&& version_of_byte(self.spec_bytes()[0]) matches Some(version) && self.spec_bytes().len()
            + self.spec_remaining() == header_size(version)
    }

    /// The start of a header in a chunk of at most six bytes, if the chunk holds a magic byte
    /// that `V` takes: everything from the first such byte on.
    pub fn from_slice(buffer: &[u8]) -> (r: Option<HeaderStart<V>>)
        requires
            buffer@.len() <= HEADER_MIN_SIZE,
        ensures
            r is Some <==> magic_position(V::bound(), buffer@) < buffer@.len(),
            r matches Some(start) ==> start.wf() && start.spec_bytes() == buffer@.skip(
                magic_position(V::bound(), buffer@) as int,
            ),
    {
        let mut index: usize = 0;
        proof {
            assert(buffer@.skip(0) =~= buffer@);
        }
        while index < buffer.len()
            invariant
                index <= buffer.len(),
                magic_position(V::bound(), buffer@) == index + magic_position(
                    V::bound(),
                    buffer@.skip(index as int),
                ),
            ensures
                index < buffer.len() ==> V::spec_is_magic_byte(buffer@[index as int]),
            decreases buffer.len() - index,
        {
            proof {
                V::magic_byte_follows_bound(buffer@[index as int]);
                assert(buffer@.skip(index as int)[0] == buffer@[index as int]);
                assert(buffer@.skip(index as int).skip(1) =~= buffer@.skip(index + 1));
            }
            if V::is_magic_byte(buffer[index]) {
                break ;
            }
            index = index + 1;
        }
        if index >= buffer.len() {
            return None;
        }
        proof {
            V::magic_byte_follows_bound(buffer@[index as int]);
            assert(buffer@.skip(index as int)[0] == buffer@[index as int]);
        }
        let header_size: usize = if buffer[index] == STX_V1 {
            HEADER_V1_SIZE
        } else {
            HEADER_V2_SIZE
        };
        let n_bytes_read: usize = buffer.len() - index;
        let mut header_bytes = [0u8; HEADER_MAX_SIZE];
        let mut i: usize = 0;
        while i < n_bytes_read
            invariant
                i <= n_bytes_read,
                n_bytes_read == buffer.len() - index,
                index < buffer.len(),
                buffer@.len() <= 6,
                forall|k: int| 0 <= k < i ==> header_bytes@[k] == buffer@[index + k],
            decreases n_bytes_read - i,
        {
            header_bytes[i] = buffer[index + i];
            i = i + 1;
        }
        assert(header_bytes@[0] == buffer@[index as int]);
        let start = HeaderStart {
            buffer: header_bytes,
            n_bytes_read,
            n_bytes_left: header_size - n_bytes_read,
            _marker_version: PhantomData,
        };
        assert(start.spec_bytes() =~= buffer@.skip(index as int));
        Some(start)
    }

    /// The bytes of the header that are there.
    pub fn header_bytes(&self) -> (bytes: &[u8])
        ensures
            bytes@ == self.spec_bytes(),
            self.wf(),
    {
        proof {
            use_type_invariant(self);
        }
        slice_subrange(self.buffer.as_slice(), 0, self.n_bytes_read)
    }

    /// Whether every byte of the header is there.
    pub fn is_complete(&self) -> (complete: bool)
        ensures
            complete == (self.spec_remaining() == 0),
            self.wf(),
    {
        proof {
            use_type_invariant(self);
        }
        self.n_bytes_left == 0
    }

    /// Number of bytes of the header that are still to come.
    pub fn remaining(&self) -> (count: usize)
        ensures
            count == self.spec_remaining(),
            count <= HEADER_MAX_SIZE,
            self.wf(),
    {
        proof {
            use_type_invariant(self);
        }
        self.n_bytes_left
    }

    /// Adds the bytes that were still to come.
    pub fn complete(&mut self, rest: &[u8])
        requires
            rest@.len() == old(self).spec_remaining(),
        ensures
            final(self).wf(),
            final(self).spec_bytes() == old(self).spec_bytes() + rest@,
            final(self).spec_remaining() == 0,
    {
        proof {
            use_type_invariant(&*self);
        }
        let ghost before = self.buffer@;
        let n_bytes_read = self.n_bytes_read;
        let mut buffer = self.buffer;
        let mut i: usize = 0;
        while i < rest.len()
            invariant
                i <= rest.len(),
                n_bytes_read + rest.len() <= 10,
                forall|k: int| 0 <= k < n_bytes_read ==> buffer@[k] == before[k],
                forall|k: int| 0 <= k < i ==> buffer@[n_bytes_read + k] == rest@[k],
            decreases rest.len() - i,
        {
            buffer[n_bytes_read + i] = rest[i];
            i = i + 1;
        }
        let ghost old_bytes = self.spec_bytes();
        *self = HeaderStart {
            buffer,
            n_bytes_read: n_bytes_read + rest.len(),
            n_bytes_left: 0,
            _marker_version: PhantomData,
        };
        assert(self.spec_bytes() =~= old_bytes + rest@);
    }
}

} // verus!
