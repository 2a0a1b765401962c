//! MAVLink frame: header, payload, checksum and, for signed `MAVLink 2` frames, signature.

use vstd::prelude::*;
use vstd::slice::{slice_subrange, slice_to_vec};
use crate::bytes::{append, append_zeros, le16, le16_value, same_bytes, zeros};
use crate::consts::{CHECKSUM_SIZE, PAYLOAD_MAX_SIZE, SIGNATURE_LENGTH};
use crate::crc::{crc16_digest, crc16_mcrf4xx, lemma_crc_digest_in_pieces, CRC_INITIAL};
use crate::dialect::Dialect;
use crate::error::{error_of, Error, FrameError, IoError, IoErrorKind, VersionError};
use crate::flags::{lemma_with_signed_bit, CompatFlags, IncompatFlags};
use crate::frame_builder::FrameBuilder;
use crate::header::{
    header_size, lemma_header_round_trip, magic_position, parse_header, scan_header, Header,
    HeaderView,
};
use crate::io::{Read, Write};
use crate::marker::accepts_magic_byte;
use crate::marker::{
    version_matches, HasCompId, HasMsgId, HasPayload, HasPayloadLen, HasSysId, MaybeVersioned,
    NoCompId, NoCrcExtra, NoMsgId, NoPayload, NoPayloadLen, NoSysId, NotSequenced, NotSigned,
    Sequenced, Versioned, Versionless, V2,
};
use crate::payload::Payload;
use crate::signature::{
    checksum_bytes, signature_value, signing_input, MavTimestamp, SecretKey, Sign, Signature,
    SignatureConf,
};
use crate::update::UpdateFrameUnsafe;
use crate::types::{
    Checksum, ComponentId, CrcExtra, MavLinkVersion, MessageId, PayloadLength, Sequence,
    SignedLinkId, SystemId,
};

verus! {

/// What a frame holds, as plain values.
pub struct FrameView {
    /// The header.
    pub header: HeaderView,
    /// The bytes of the payload.
    pub payload: Seq<u8>,
    /// The message identifier that the payload carries.
    pub payload_id: MessageId,
    /// The protocol version that the payload carries.
    pub payload_version: MavLinkVersion,
    /// The checksum.
    pub checksum: Checksum,
    /// The signature, if the frame has one.
    pub signature: Option<Signature>,
}

impl FrameView {
    /// Whether the parts of the frame agree with each other and the wire can carry them.
    ///
    /// Header and payload agree on length, message and version; the frame has a signature
    /// exactly if its header announces one; the timestamp of the signature has 48 bits.
    pub open spec fn wf(self) -> bool {
        &&& self.header.wf()
        &&& self.header.payload_length == self.payload.len()
        &&& self.header.message_id == self.payload_id
        &&& self.header.version == self.payload_version
        &&& self.signature is Some <==> self.header.is_signed()
        &&& self.signature matches Some(signature) ==> signature.timestamp.wf()
    }

    /// The bytes that the checksum covers: the header without its magic byte, the payload and
    /// the checksum salt of the message.
    pub open spec fn crc_data(self, crc_extra: CrcExtra) -> Seq<u8> {
        self.header.bytes().skip(1) + self.payload + seq![crc_extra]
    }

    /// The checksum that the frame should have if `crc_extra` is the salt of its message.
    pub open spec fn crc(self, crc_extra: CrcExtra) -> Checksum {
        crc16_mcrf4xx(self.crc_data(crc_extra))
    }

    /// The bytes of the signature as the body carries them: none if the header announces no
    /// signature, zeros if it announces one that is not there.
    pub open spec fn signature_bytes(self) -> Seq<u8> {
        if self.header.is_signed() {
            match self.signature {
                Some(signature) => signature.spec_bytes(),
                None => zeros(SIGNATURE_LENGTH as nat),
            }
        } else {
            Seq::empty()
        }
    }

    /// What follows the header on the wire: payload, checksum and signature.
    pub open spec fn body_bytes(self) -> Seq<u8> {
        self.payload + le16(self.checksum) + self.signature_bytes()
    }

    /// The frame on the wire.
    pub open spec fn wire_bytes(self) -> Seq<u8> {
        self.header.bytes() + self.body_bytes()
    }

    /// The bytes that are signed when this frame is signed for a link at a time with a key.
    pub open spec fn signing_input(self, key: Seq<u8>, link_id: u8, timestamp: u64) -> Seq<u8> {
        signing_input(key, self.header.bytes(), self.payload, self.checksum, link_id, timestamp)
    }

    /// Whether this is the frame that `body`, read from the wire behind `header`, spells.
    pub open spec fn is_parse_of(self, header: HeaderView, body: Seq<u8>) -> bool {
        let length = header.payload_length as int;
        &&& self.header == header
        &&& self.payload == body.take(length)
        &&& self.payload_id == header.message_id
        &&& self.payload_version == header.version
        &&& self.checksum == le16_value(body[length], body[length + 1])
        &&& self.signature is Some <==> header.is_signed()
        &&& self.signature matches Some(signature) ==> signature.timestamp.wf()
            && signature.spec_bytes() == body.subrange(length + 2, length + 15)
    }

    /// Whether this is what signing `before` for a link at a time with a key gives.
    ///
    /// A `MAVLink 1` frame stays as it is. A `MAVLink 2` frame gets the "signed" flag and a
    /// signature whose value is the digest, by `S`, of the signing input of the flagged frame.
    /// Payload and checksum stay.
    pub open spec fn is_signing_of<S: Sign>(
        self,
        before: FrameView,
        key: Seq<u8>,
        link_id: u8,
        timestamp: MavTimestamp,
    ) -> bool {
        if before.header.version == MavLinkVersion::V2 {
            &&& self.header == before.header.with_signed(true)
            &&& self.payload == before.payload
            &&& self.payload_id == before.payload_id
            &&& self.payload_version == before.payload_version
            &&& self.checksum == before.checksum
            &&& self.signature matches Some(signature) && signature.link_id == link_id
                && signature.timestamp == timestamp && signature.value@ == S::value_of(
                self.signing_input(key, link_id, timestamp@),
            )
        } else {
            self == before
        }
    }

    /// Whether this is what a change of payload bytes, checksum and signature can make of
    /// `before`: the header is the same but for the "signed" flag, which says whether a
    /// `MAVLink 2` frame has a signature; a `MAVLink 1` frame has none; the payload has the
    /// same length and belongs to the same message.
    pub open spec fn is_update_of(self, before: FrameView) -> bool {
        &&& self.header == (if before.header.version == MavLinkVersion::V2 {
            before.header.with_signed(self.signature is Some)
        } else {
            before.header
        })
        &&& before.header.version == MavLinkVersion::V1 ==> self.signature is None
        &&& self.payload.len() == before.payload.len()
        &&& self.payload_id == before.payload_id
        &&& self.payload_version == before.payload_version
        &&& self.signature matches Some(signature) ==> signature.timestamp.wf()
    }

    /// What decoding the frame with the dialect `D` gives: what the dialect reads from the
    /// payload, with its error turned into an error of this library.
    pub open spec fn decoded<D: Dialect>(self) -> Result<D, Error> {
        match D::spec_decode(self.payload_id, self.payload_version, self.payload) {
            Ok(message) => Ok(message),
            Err(e) => Err(error_of(e)),
        }
    }

    /// What a signer has taken after this frame went through signing for a link at a time with
    /// a key: the signing input of the flagged frame, if this is a `MAVLink 2` frame, and what
    /// it had taken before, if not. A `MAVLink 1` frame does not touch the signer.
    pub open spec fn signer_input_after_signing(
        self,
        taken: Seq<u8>,
        key: Seq<u8>,
        link_id: u8,
        timestamp: MavTimestamp,
    ) -> Seq<u8> {
        if self.header.version == MavLinkVersion::V2 {
            (FrameView { header: self.header.with_signed(true), ..self }).signing_input(
                key,
                link_id,
                timestamp@,
            )
        } else {
            taken
        }
    }

    /// What a signer has taken after the signature of this frame was computed with a key: the
    /// signing input for the link and the time of the signature, if the frame has one, and
    /// what it had taken before, if not. A frame without a signature does not touch the
    /// signer.
    pub open spec fn signer_input_after_calculation(self, taken: Seq<u8>, key: Seq<u8>) -> Seq<
        u8,
    > {
        match self.signature {
            Some(signature) => self.signing_input(key, signature.link_id, signature.timestamp@),
            None => taken,
        }
    }

    /// This frame without its signature and without the "signed" flag.
    pub open spec fn unsigned(self) -> FrameView {
        FrameView { header: self.header.with_signed(false), signature: None, ..self }
    }
}

/// A frame whose parts agree is the only frame that its own body spells behind its own header.
pub proof fn lemma_frame_round_trip(frame: FrameView, parsed: FrameView)
    requires
        frame.wf(),
        parsed.is_parse_of(frame.header, frame.body_bytes()),
    ensures
        parsed == frame,
        frame.body_bytes().len() == frame.header.body_length(),
{
    let body = frame.body_bytes();
    let length = frame.header.payload_length as int;
    assert(body.take(length) =~= frame.payload);
    crate::bytes::lemma_le16_round_trip(frame.checksum, 0, 0);
    assert(body[length] == le16(frame.checksum)[0]);
    assert(body[length + 1] == le16(frame.checksum)[1]);
    if frame.header.is_signed() {
        let signature = frame.signature->0;
        assert(body.subrange(length + 2, length + 15) =~= signature.spec_bytes());
        crate::signature::lemma_signature_round_trip(parsed.signature->0, signature);
    }
}

/// What a receiver finds in a stream: the first header, the body behind it, and what follows.
///
/// Nothing is found if the stream ends before the body that the header declares is complete.
pub open spec fn scan_frame(bound: Option<MavLinkVersion>, stream: Seq<u8>) -> Option<
    (HeaderView, Seq<u8>, Seq<u8>),
> {
    match scan_header(bound, stream) {
        None => None,
        Some(found) => {
            let header = parse_header(found.0);
            let length = header.body_length() as int;
            if found.1.len() < length {
                None
            } else {
                Some((header, found.1.take(length), found.1.skip(length)))
            }
        },
    }
}

/// A receiver that takes the version of a frame finds the frame at the start of a stream that
/// starts with the bytes of the frame: it finds its header and its body, and leaves what
/// follows.
pub proof fn lemma_scan_finds_frame(bound: Option<MavLinkVersion>, frame: FrameView, rest: Seq<u8>)
    requires
        frame.wf(),
        version_matches(bound, frame.header.version),
    ensures
        scan_frame(bound, frame.wire_bytes() + rest) == Some(
            (frame.header, frame.body_bytes(), rest),
        ),
{
    let stream = frame.wire_bytes() + rest;
    let header = frame.header.bytes();
    let body = frame.body_bytes();
    lemma_header_round_trip(frame.header);
    let chunk = stream.take(6);
    assert(chunk[0] == header[0]);
    assert(accepts_magic_byte(bound, chunk[0]));
    assert(magic_position(bound, chunk) == 0);
    let size = header_size(frame.header.version) as int;
    assert(stream.subrange(0, size) =~= header);
    assert(stream.skip(size) =~= body + rest);
    assert(body.len() == frame.header.body_length()) by {
        if frame.header.is_signed() {
            assert(frame.signature->0.spec_bytes().len() == 13);
        }
    }
    assert((body + rest).take(body.len() as int) =~= body);
    assert((body + rest).skip(body.len() as int) =~= rest);
}

/// Sending a frame and receiving it gives the frame back: a frame whose parts agree is the
/// only frame that a receiver which takes its version reads from its bytes, whatever follows
/// them.
pub proof fn lemma_send_then_receive(
    bound: Option<MavLinkVersion>,
    frame: FrameView,
    rest: Seq<u8>,
    received: FrameView,
)
    requires
        frame.wf(),
        version_matches(bound, frame.header.version),
        scan_frame(bound, frame.wire_bytes() + rest) matches Some(found) && received.is_parse_of(
            found.0,
            found.1,
        ),
    ensures
        received == frame,
{
    lemma_scan_finds_frame(bound, frame, rest);
    lemma_frame_round_trip(frame, received);
}

/// A frame that was signed with a key passes for signed with that key: the value of its
/// signature is the digest of its signing input for the link and the time of its signature.
pub proof fn lemma_signed_frame_validates<S: Sign>(
    signed: FrameView,
    before: FrameView,
    key: Seq<u8>,
    link_id: u8,
    timestamp: MavTimestamp,
)
    requires
        before.header.version == MavLinkVersion::V2,
        signed.is_signing_of::<S>(before, key, link_id, timestamp),
    ensures
        signed.signature matches Some(signature) && signature.value@ == S::value_of(
            signed.signing_input(key, signature.link_id, signature.timestamp@),
        ),
        signed.header.is_signed(),
        before.wf() && timestamp.wf() ==> signed.wf(),
{
    lemma_with_signed_bit(before.header.incompat_flags, true);
}

/// Signing a frame that has no signature and taking the signature off again gives the frame
/// back.
pub proof fn lemma_unsigning_undoes_signing<S: Sign>(
    signed: FrameView,
    before: FrameView,
    key: Seq<u8>,
    link_id: u8,
    timestamp: MavTimestamp,
)
    requires
        before.wf(),
        before.signature is None,
        signed.is_signing_of::<S>(before, key, link_id, timestamp),
    ensures
        signed.unsigned() == before,
{
    lemma_with_signed_bit(before.header.incompat_flags, true);
    lemma_with_signed_bit(before.header.incompat_flags, false);
}

/// MAVLink frame.
///
/// `V` says which protocol versions the holder of the frame is bound to.
#[derive(Debug)]
pub struct Frame<V: MaybeVersioned> {
    header: Header<V>,
    payload: Payload,
    checksum: Checksum,
    signature: Option<Signature>,
}

impl Frame<Versionless> {
    /// A builder with no field set.
    pub fn builder() -> (builder: FrameBuilder<
        Versionless,
        NoPayloadLen,
        NotSequenced,
        NoSysId,
        NoCompId,
        NoMsgId,
        NoPayload,
        NoCrcExtra,
        NotSigned,
    >)
        ensures
            builder.header_builder.incompat_flags is None,
            builder.header_builder.compat_flags is None,
    {
        FrameBuilder::new()
    }
}

impl<V: MaybeVersioned> Frame<V> {
    /// The header declares the length that the payload has.
    #[verifier::type_invariant]
    pub(crate) open spec fn declares_its_payload(self) -> bool {
        self@.header.payload_length == self@.payload.len()
    }

    /// What the frame holds.
    pub closed spec fn view(&self) -> FrameView {
        FrameView {
            header: self.header@,
            payload: self.payload.spec_bytes(),
            payload_id: self.payload.spec_id(),
            payload_version: self.payload.spec_version(),
            checksum: self.checksum,
            signature: self.signature,
        }
    }

    /// Whether the version of the frame is one that `V` takes.
    pub open spec fn is_bound(&self) -> bool {
        version_matches(V::bound(), self@.header.version)
    }

    /// A frame of the given parts.
    pub(crate) fn from_parts(
        header: Header<V>,
        payload: Payload,
        checksum: Checksum,
        signature: Option<Signature>,
    ) -> (frame: Frame<V>)
        requires
            header@.payload_length == payload.spec_bytes().len(),
        ensures
            frame@ == (FrameView {
                header: header@,
                payload: payload.spec_bytes(),
                payload_id: payload.spec_id(),
                payload_version: payload.spec_version(),
                checksum,
                signature,
            }),
    {
        Frame { header, payload, checksum, signature }
    }

    /// The header.
    pub fn header(&self) -> (header: &Header<V>)
        ensures
            header@ == self@.header,
    {
        &self.header
    }

    /// Protocol version.
    pub fn version(&self) -> (version: MavLinkVersion)
        ensures
            version == self@.header.version,
            self.is_bound(),
    {
        self.header.version()
    }

    /// Protocol version.
    pub fn mavlink_version(&self) -> (version: MavLinkVersion)
        ensures
            version == self@.header.version,
    {
        self.header.version()
    }

    /// Number of payload bytes: the header declares the length that the payload has.
    pub fn payload_length(&self) -> (length: PayloadLength)
        ensures
            length == self@.header.payload_length,
            length == self@.payload.len(),
    {
        proof {
            use_type_invariant(self);
        }
        self.header.payload_length()
    }

    /// Sequence number.
    pub fn sequence(&self) -> (sequence: Sequence)
        ensures
            sequence == self@.header.sequence,
    {
        self.header.sequence()
    }

    /// System that sent the frame.
    pub fn system_id(&self) -> (id: SystemId)
        ensures
            id == self@.header.system_id,
    {
        self.header.system_id()
    }

    /// Component that sent the frame.
    pub fn component_id(&self) -> (id: ComponentId)
        ensures
            id == self@.header.component_id,
    {
        self.header.component_id()
    }

    /// Identifier of the message.
    pub fn message_id(&self) -> (id: MessageId)
        ensures
            id == self@.header.message_id,
    {
        self.header.message_id()
    }

    /// The payload.
    pub fn payload(&self) -> (payload: &Payload)
        ensures
            payload.spec_bytes() == self@.payload,
            payload.spec_id() == self@.payload_id,
            payload.spec_version() == self@.payload_version,
            payload.wf(),
    {
        proof {
            use_type_invariant(&self.payload);
        }
        &self.payload
    }

    /// The checksum that the frame carries.
    pub fn checksum(&self) -> (checksum: Checksum)
        ensures
            checksum == self@.checksum,
    {
        self.checksum
    }

    /// Whether the frame carries a signature.
    pub fn is_signed(&self) -> (signed: bool)
        ensures
            signed == (self@.signature is Some),
    {
        self.signature.is_some()
    }

    /// The signature, if the frame carries one.
    pub fn signature(&self) -> (signature: Option<&Signature>)
        ensures
            signature is Some <==> self@.signature is Some,
            signature matches Some(s) ==> self@.signature == Some(*s),
    {
        self.signature.as_ref()
    }

    /// Identifier of the signed link, if the frame carries a signature.
    pub fn link_id(&self) -> (link_id: Option<SignedLinkId>)
        ensures
            link_id is Some <==> self@.signature is Some,
            link_id matches Some(id) ==> id == self@.signature->0.link_id,
    {
        match &self.signature {
            Some(signature) => Some(signature.link_id),
            None => None,
        }
    }

    /// Time of signing, if the frame carries a signature.
    pub fn timestamp(&self) -> (timestamp: Option<MavTimestamp>)
        ensures
            timestamp is Some <==> self@.signature is Some,
            timestamp matches Some(t) ==> t == self@.signature->0.timestamp,
    {
        match &self.signature {
            Some(signature) => Some(signature.timestamp),
            None => None,
        }
    }

    /// Number of bytes that follow the header on the wire, as the header declares it.
    pub fn body_length(&self) -> (length: usize)
        ensures
            length == self@.header.body_length(),
    {
        self.header.body_length()
    }

    /// Whether the parts of the frame agree with each other and the wire can carry them.
    pub fn is_consistent(&self) -> (consistent: bool)
        ensures
            consistent == self@.wf(),
    {
        let header_fits = match self.header.version() {
            MavLinkVersion::V1 => self.header.message_id() <= crate::consts::MESSAGE_ID_V1_MAX
                && self.header.stored_incompat_flags().bits() == 0
                && self.header.stored_compat_flags().bits() == 0,
            MavLinkVersion::V2 => self.header.message_id() < crate::consts::MESSAGE_ID_V2_MAX,
        };
        let timestamp_fits = match &self.signature {
            Some(signature) => signature.timestamp.raw() <= crate::consts::TIMESTAMP_RAW_MAX,
            None => true,
        };
        proof {
            use_type_invariant(self);
        }
        header_fits && self.header.message_id() == self.payload.id() && self.header.version()
            == self.payload.version() && self.signature.is_some() == self.header.is_signed()
            && timestamp_fits
    }

    /// The checksum of the frame as it is, with `crc_extra` as the salt of its message.
    pub fn calculate_crc(&self, crc_extra: CrcExtra) -> (crc: Checksum)
        ensures
            crc == self@.crc(crc_extra),
    {
        let header = self.header.decode();
        let salt = [crc_extra];
        let after_header = crc16_digest(CRC_INITIAL, header.crc_data());
        let after_payload = crc16_digest(after_header, self.payload.bytes());
        let crc = crc16_digest(after_payload, salt.as_slice());
        proof {
            let head = self@.header.bytes().skip(1);
            assert(salt@ =~= seq![crc_extra]);
            lemma_crc_digest_in_pieces(CRC_INITIAL, head, self@.payload);
            lemma_crc_digest_in_pieces(CRC_INITIAL, head + self@.payload, salt@);
        }
        crc
    }

    /// Checks the checksum against the salt that the dialect `D` has for the message.
    ///
    /// Fails with `NotInDialect` if the dialect does not have the message, and with `Checksum`
    /// if the checksum that the frame carries is not the one computed.
    pub fn validate_checksum<D: Dialect>(&self) -> (r: Result<(), Error>)
        ensures
            match D::spec_crc_extra(self@.header.message_id) {
                Some(crc_extra) => (r is Ok <==> self@.checksum == self@.crc(crc_extra)) && (r
                    is Err ==> r == Err::<(), Error>(Error::Frame(FrameError::Checksum))),
                None => r == Err::<(), Error>(
                    Error::Frame(FrameError::NotInDialect(self@.header.message_id)),
                ),
            },
    {
        match D::message_info(self.header.message_id()) {
            Ok(info) => self.validate_checksum_with_crc_extra(info.crc_extra()),
            Err(e) => Err(Error::from(e)),
        }
    }

    /// Checks the checksum against a given salt. Fails with `Checksum` if the checksum that the
    /// frame carries is not the one computed.
    pub fn validate_checksum_with_crc_extra(&self, crc_extra: CrcExtra) -> (r: Result<(), Error>)
        ensures
            r is Ok <==> self@.checksum == self@.crc(crc_extra),
            r is Err ==> r == Err::<(), Error>(Error::Frame(FrameError::Checksum)),
    {
        if self.calculate_crc(crc_extra) != self.checksum {
            return Err(Error::Frame(FrameError::Checksum));
        }
        Ok(())
    }

    /// The message of the frame, as the dialect `D` reads it from the payload.
    ///
    /// The dialect decides; its error comes back as an error of this library, an unknown
    /// message as `NotInDialect`.
    pub fn decode<D: Dialect>(&self) -> (r: Result<D, Error>)
        ensures
            r == self@.decoded::<D>(),
            r matches Err(e) ==> !(e is Io),
    {
        match D::decode(&self.payload) {
            Ok(message) => Ok(message),
            Err(e) => Err(Error::from(e)),
        }
    }

    /// Whether the frame has the protocol version of the marker.
    pub fn matches_version<Version: Versioned>(&self, version: Version) -> (matches: bool)
        ensures
            matches == (Version::bound() == Some(self@.header.version)),
    {
        let expected = Version::version();
        expected == self.header.version()
    }

    /// Signs the frame if it is a `MAVLink 2` frame, and leaves it as it is otherwise.
    pub fn sign<S: Sign>(
        &mut self,
        signer: &mut S,
        link_id: SignedLinkId,
        timestamp: MavTimestamp,
        key: &SecretKey,
    )
        ensures
            final(self)@.is_signing_of::<S>(old(self)@, key@, link_id, timestamp),
            old(self)@.wf() ==> final(self)@.wf(),
            final(signer).input() == old(self)@.signer_input_after_signing(
                old(signer).input(),
                key@,
                link_id,
                timestamp,
            ),
    {
        proof {
            use_type_invariant(&*self);
        }
        match self.header.version() {
            MavLinkVersion::V1 => {},
            MavLinkVersion::V2 => {
                proof {
                    lemma_with_signed_bit(self@.header.incompat_flags, true);
                    use_type_invariant(timestamp);
                }
                let mut header = self.header.clone();
                header.set_is_signed(true);
                self.header = header;
                let value = signature_value(signer, &*self, link_id, timestamp, key);
                self.signature = Some(Signature { link_id, timestamp, value });
            },
        }
    }

    /// Signs the frame if it is a `MAVLink 2` frame, and leaves it as it is otherwise.
    pub fn add_signature<S: Sign>(&mut self, signer: &mut S, conf: SignatureConf)
        ensures
            final(self)@.is_signing_of::<S>(old(self)@, conf.secret@, conf.link_id, conf.timestamp),
            old(self)@.wf() ==> final(self)@.wf(),
            final(signer).input() == old(self)@.signer_input_after_signing(
                old(signer).input(),
                conf.secret@,
                conf.link_id,
                conf.timestamp,
            ),
    {
        self.sign(signer, conf.link_id, conf.timestamp, &conf.secret);
    }

    /// Signs a signed frame again with the key of `conf`. The link and the time of the
    /// signature stay, and a frame without a signature stays as it is.
    pub fn replace_signature<S: Sign>(&mut self, signer: &mut S, conf: SignatureConf)
        ensures
            match old(self)@.signature {
                Some(signature) => final(self)@.signature matches Some(replaced)
                    && replaced.link_id == signature.link_id && replaced.timestamp
                    == signature.timestamp && replaced.value@ == S::value_of(
                    old(self)@.signing_input(conf.secret@, signature.link_id, signature.timestamp@),
                ),
                None => final(self)@.signature is None,
            },
            final(self)@.header == old(self)@.header,
            final(self)@.payload == old(self)@.payload,
            final(self)@.payload_id == old(self)@.payload_id,
            final(self)@.payload_version == old(self)@.payload_version,
            final(self)@.checksum == old(self)@.checksum,
            final(signer).input() == old(self)@.signer_input_after_calculation(
                old(signer).input(),
                conf.secret@,
            ),
    {
        proof {
            use_type_invariant(&*self);
        }
        match self.signature {
            Some(signature) => {
                let value = signature_value(
                    signer,
                    &*self,
                    signature.link_id,
                    signature.timestamp,
                    &conf.secret,
                );
                self.signature = Some(
                    Signature { link_id: signature.link_id, timestamp: signature.timestamp, value },
                );
            },
            None => {},
        }
    }

    /// Takes the signature and the "signed" flag from the frame.
    pub fn remove_signature(&mut self)
        ensures
            final(self)@ == old(self)@.unsigned(),
    {
        proof {
            use_type_invariant(&*self);
        }
        self.signature = None;
        let mut header = self.header.clone();
        header.set_is_signed(false);
        self.header = header;
    }

    /// The signature value of the frame for the link and the time of its signature under
    /// `key`, if the frame has a signature.
    pub fn calculate_signature<S: Sign>(&self, signer: &mut S, key: &SecretKey) -> (value: Option<
        [u8; 6],
    >)
        ensures
            value is Some <==> self@.signature is Some,
            value matches Some(v) ==> v@ == S::value_of(
                self@.signing_input(
                    key@,
                    self@.signature->0.link_id,
                    self@.signature->0.timestamp@,
                ),
            ),
            final(signer).input() == self@.signer_input_after_calculation(
                old(signer).input(),
                key@,
            ),
    {
        match &self.signature {
            Some(signature) => Some(
                signature_value(signer, self, signature.link_id, signature.timestamp, key),
            ),
            None => None,
        }
    }

    /// Checks the signature under `key`. Fails with `Signature` if the frame has no signature
    /// or if the value of its signature is not the one computed.
    pub fn validate_signature<S: Sign>(&self, signer: &mut S, key: &SecretKey) -> (r: Result<
        (),
        Error,
    >)
        ensures
            r is Ok <==> (self@.signature matches Some(signature) && signature.value@
                == S::value_of(
                self@.signing_input(key@, signature.link_id, signature.timestamp@),
            )),
            r is Err ==> r == Err::<(), Error>(Error::Frame(FrameError::Signature)),
            final(signer).input() == self@.signer_input_after_calculation(
                old(signer).input(),
                key@,
            ),
    {
        match &self.signature {
            Some(signature) => {
                let expected = signature_value(
                    signer,
                    self,
                    signature.link_id,
                    signature.timestamp,
                    key,
                );
                if same_bytes(expected.as_slice(), signature.value.as_slice()) {
                    Ok(())
                } else {
                    Err(Error::Frame(FrameError::Signature))
                }
            },
            None => Err(Error::Frame(FrameError::Signature)),
        }
    }

    /// The same frame bound to `Version`, if `Version` takes its protocol version.
    pub fn try_into_versioned<Version: MaybeVersioned>(self) -> (r: Result<Frame<Version>, Error>)
        ensures
            r is Ok <==> version_matches(Version::bound(), self@.header.version),
            r matches Ok(frame) ==> frame@ == self@ && frame.is_bound(),
            r matches Err(e) ==> Version::bound() matches Some(expected) && e == Error::Frame(
                FrameError::Version(VersionError { expected, actual: self@.header.version }),
            ),
    {
        proof {
            use_type_invariant(&self);
        }
        match self.header.try_into_versioned::<Version>() {
            Ok(header) => Ok(
                Frame {
                    header,
                    payload: self.payload,
                    checksum: self.checksum,
                    signature: self.signature,
                },
            ),
            Err(e) => Err(Error::Frame(FrameError::Version(e))),
        }
    }

    /// A copy of the frame bound to no version.
    pub fn versionless(&self) -> (frame: Frame<Versionless>)
        ensures
            frame@ == self@,
            frame.is_bound(),
    {
        proof {
            use_type_invariant(self);
        }
        Frame {
            header: self.header.to_versionless(),
            payload: self.payload.clone(),
            checksum: self.checksum,
            signature: self.signature,
        }
    }

    /// A copy of the frame bound to the version of the marker, if the frame has that version.
    pub fn try_versioned<Version: Versioned>(&self, version: Version) -> (r: Result<
        Frame<Version>,
        Error,
    >)
        ensures
            r is Ok <==> version_matches(Version::bound(), self@.header.version),
            r matches Ok(frame) ==> frame@ == self@ && frame.is_bound(),
            r matches Err(e) ==> Version::bound() matches Some(expected) && e == Error::Frame(
                FrameError::Version(VersionError { expected, actual: self@.header.version }),
            ),
    {
        self.versionless().try_into_versioned::<Version>()
    }

    /// The same frame bound to `Version`, which takes its protocol version.
    pub(crate) fn rebind<Version: MaybeVersioned>(self) -> (frame: Frame<Version>)
        requires
            version_matches(Version::bound(), self@.header.version),
        ensures
            frame@ == self@,
            frame.is_bound(),
    {
        proof {
            use_type_invariant(&self);
        }
        Frame {
            header: self.header.rebind::<Version>(),
            payload: self.payload,
            checksum: self.checksum,
            signature: self.signature,
        }
    }

    /// The same frame bound to no version.
    pub fn into_versionless(self) -> (frame: Frame<Versionless>)
        ensures
            frame@ == self@,
            frame.is_bound(),
    {
        proof {
            use_type_invariant(&self);
        }
        Frame {
            header: self.header.into_versionless(),
            payload: self.payload,
            checksum: self.checksum,
            signature: self.signature,
        }
    }

    /// Incompatibility flags, which only a `MAVLink 2` frame has.
    pub fn incompat_flags(&self) -> (flags: Option<IncompatFlags>)
        ensures
            flags is Some <==> self@.header.version == MavLinkVersion::V2,
            flags matches Some(f) ==> f@ == self@.header.incompat_flags,
    {
        match self.header.version() {
            MavLinkVersion::V1 => None,
            MavLinkVersion::V2 => Some(self.header.stored_incompat_flags()),
        }
    }

    /// Compatibility flags, which only a `MAVLink 2` frame has.
    pub fn compat_flags(&self) -> (flags: Option<CompatFlags>)
        ensures
            flags is Some <==> self@.header.version == MavLinkVersion::V2,
            flags matches Some(f) ==> f@ == self@.header.compat_flags,
    {
        match self.header.version() {
            MavLinkVersion::V1 => None,
            MavLinkVersion::V2 => Some(self.header.stored_compat_flags()),
        }
    }

    /// Lets `updater` change payload bytes, checksum and signature, and then makes the
    /// signature and the "signed" flag agree with the version and with each other.
    pub fn update_with<U: UpdateFrameUnsafe<V>>(&mut self, updater: &mut U)
        ensures
            final(self)@.is_update_of(old(self)@),
            old(self)@.wf() ==> final(self)@.wf(),
    {
        proof {
            use_type_invariant(&*self);
        }
        let header = self.header.clone();
        let mut bytes = slice_to_vec(self.payload.bytes());
        let mut checksum = self.checksum;
        let mut signature = self.signature;
        updater.update_unsafe(header, bytes.as_mut_slice(), &mut checksum, &mut signature);
        self.payload = Payload::from_wire(self.payload.id(), bytes, self.payload.version());
        self.checksum = checksum;
        match self.header.version() {
            MavLinkVersion::V1 => {
                self.signature = None;
            },
            MavLinkVersion::V2 => {
                proof {
                    lemma_with_signed_bit(self@.header.incompat_flags, signature is Some);
                    match signature {
                        Some(s) => {
                            use_type_invariant(s.timestamp);
                        },
                        None => {},
                    }
                }
                let mut header = self.header.clone();
                header.set_is_signed(signature.is_some());
                self.header = header;
                self.signature = signature;
            },
        }
    }

    /// Computes the checksum anew, with `crc_extra` as the salt of the message.
    pub fn recalculate_crc(&mut self, crc_extra: CrcExtra)
        ensures
            final(self)@ == (FrameView { checksum: old(self)@.crc(crc_extra), ..old(self)@ }),
            final(self)@.checksum == final(self)@.crc(crc_extra),
    {
        proof {
            use_type_invariant(&*self);
        }
        self.checksum = self.calculate_crc(crc_extra);
    }

    /// Replaces the checksum.
    pub(crate) fn set_checksum(&mut self, checksum: Checksum)
        ensures
            final(self)@ == (FrameView { checksum, ..old(self)@ }),
    {
        proof {
            use_type_invariant(&*self);
        }
        self.checksum = checksum;
    }

    /// Replaces the incompatibility flags of the header.
    pub(crate) fn set_incompat_flags(&mut self, flags: IncompatFlags)
        ensures
            final(self)@ == (FrameView {
                header: HeaderView { incompat_flags: flags@, ..old(self)@.header },
                ..old(self)@
            }),
    {
        proof {
            use_type_invariant(&*self);
        }
        let mut header = self.header.clone();
        header.set_incompat_flags(flags);
        self.header = header;
    }

    /// Replaces the compatibility flags of the header.
    pub(crate) fn set_compat_flags(&mut self, flags: CompatFlags)
        ensures
            final(self)@ == (FrameView {
                header: HeaderView { compat_flags: flags@, ..old(self)@.header },
                ..old(self)@
            }),
    {
        proof {
            use_type_invariant(&*self);
        }
        let mut header = self.header.clone();
        header.set_compat_flags(flags);
        self.header = header;
    }

    /// Reads the next frame from a stream, skipping what does not start a packet.
    ///
    /// On success the frame is the one that [`scan_frame`] finds, and the stream stands behind
    /// it. A reliable reader fails exactly if the stream ends before a frame is complete.
    /// Nothing is validated: a frame with a wrong checksum is a frame.
    pub fn recv<R: Read>(reader: &mut R) -> (r: Result<Frame<V>, Error>)
        ensures
            final(reader).reliable() == old(reader).reliable(),
            r matches Ok(frame) ==> scan_frame(V::bound(), old(reader).stream()) matches Some(
                found,
            ) && frame@.is_parse_of(found.0, found.1) && final(reader).stream() == found.2
                && frame.is_bound(),
            old(reader).reliable() ==> (r is Ok <==> scan_frame(V::bound(), old(reader).stream())
                is Some),
            r matches Err(e) ==> e is Io,
            old(reader).reliable() ==> (r matches Err(e) ==> e == Error::Io(
                IoError::spec_new(IoErrorKind::UnexpectedEof),
            )),
    {
        let header = match Header::<V>::recv(reader) {
            Ok(header) => header,
            Err(e) => {
                proof {
                    e.lemma_is_its_kind();
                }
                return Err(Error::Io(e));
            },
        };
        let body_length = header.body_length();
        let mut body: Vec<u8> = vec![0u8; body_length];
        match reader.read_exact(body.as_mut_slice()) {
            Ok(_) => {},
            Err(e) => {
                proof {
                    e.lemma_is_its_kind();
                }
                return Err(Error::Io(e));
            },
        }
        match Frame::try_from_raw_body(&header, body.as_slice()) {
            Ok(frame) => Ok(frame),
            Err(e) => Err(Error::Io(e)),
        }
    }

    /// Writes the frame to a stream, header first, and says how many bytes it wrote.
    ///
    /// A reliable writer takes the frame exactly if it has room for all of it. If it has not,
    /// the failure is `UnexpectedEof`, and the header is written if there was room for the
    /// header.
    pub fn send<W: Write>(&self, writer: &mut W) -> (r: Result<usize, Error>)
        ensures
            r matches Ok(size) ==> size == self@.wire_bytes().len() && final(writer).written()
                == old(writer).written() + self@.wire_bytes(),
            r matches Err(e) ==> e is Io,
            final(writer).reliable() == old(writer).reliable(),
            old(writer).reliable() ==> (r is Ok <==> self@.wire_bytes().len()
                <= old(writer).room()),
            old(writer).reliable() && r is Ok ==> final(writer).room() == old(writer).room()
                - self@.wire_bytes().len(),
            old(writer).reliable() ==> (r matches Err(e) ==> e == Error::Io(
                IoError::spec_new(IoErrorKind::UnexpectedEof),
            )),
            old(writer).reliable() && r is Err ==> final(writer).written()
                == (if self@.header.size() <= old(writer).room() {
                old(writer).written() + self@.header.bytes()
            } else {
                old(writer).written()
            }),
    {
        let header_size = match self.header.send(writer) {
            Ok(size) => size,
            Err(e) => {
                proof {
                    e.lemma_is_its_kind();
                }
                return Err(Error::Io(e));
            },
        };
        let body = self.body();
        match writer.write_all(body.as_slice()) {
            Ok(_) => {},
            Err(e) => {
                proof {
                    e.lemma_is_its_kind();
                }
                return Err(Error::Io(e));
            },
        }
        proof {
            assert(writer.written() =~= old(writer).written() + self@.wire_bytes());
        }
        Ok(header_size + body.len())
    }

    /// What follows the header on the wire: payload, checksum and signature.
    pub fn body(&self) -> (body: Vec<u8>)
        ensures
            body@ == self@.body_bytes(),
            body@.len() == self@.header.body_length(),
            body@.len() <= PAYLOAD_MAX_SIZE + CHECKSUM_SIZE + SIGNATURE_LENGTH,
    {
        proof {
            use_type_invariant(self);
        }
        let mut body: Vec<u8> = slice_to_vec(self.payload.bytes());
        let checksum = checksum_bytes(self.checksum);
        append(&mut body, checksum.as_slice());
        if self.header.is_signed() {
            match &self.signature {
                Some(signature) => {
                    let bytes = signature.to_byte_array();
                    append(&mut body, bytes.as_slice());
                },
                None => {
                    append_zeros(&mut body, SIGNATURE_LENGTH);
                },
            }
        }
        proof {
            assert(body@ =~= self@.body_bytes());
        }
        body
    }

    /// The frame that `body`, read from the wire behind `header`, spells.
    ///
    /// Fails if `body` does not have the length that the header declares: with `UnexpectedEof`
    /// if it is shorter, with `Generic` if it is longer.
    pub fn try_from_raw_body(header: &Header<V>, body: &[u8]) -> (r: Result<Frame<V>, IoError>)
        ensures
            r is Ok <==> body@.len() == header@.body_length(),
            r matches Ok(frame) ==> frame@.is_parse_of(header@, body@) && frame.is_bound(),
            r matches Err(e) ==> e.spec_kind() == (if body@.len() < header@.body_length() {
                IoErrorKind::UnexpectedEof
            } else {
                IoErrorKind::Generic
            }),
    {
        let expected = header.body_length();
        if body.len() < expected {
            return Err(IoError::new(IoErrorKind::UnexpectedEof));
        }
        if body.len() > expected {
            return Err(IoError::new(IoErrorKind::Generic));
        }
        let length: usize = header.payload_length() as usize;
        let bytes = slice_to_vec(slice_subrange(body, 0, length));
        let payload = Payload::from_wire(header.message_id(), bytes, header.version());
        let checksum: Checksum = body[length] as u16 + body[length + 1] as u16 * 256;
        let signature = if header.is_signed() {
            let start: usize = length + CHECKSUM_SIZE;
            let end: usize = start + SIGNATURE_LENGTH;
            let signature = Signature::from_slice(slice_subrange(body, start, end));
            proof {
                assert(body@.subrange(start as int, start + 13).take(13) =~= body@.subrange(
                    length + 2,
                    length + 15,
                ));
            }
            Some(signature)
        } else {
            None
        };
        Ok(Frame { header: header.clone(), payload, checksum, signature })
    }
}

impl<V: MaybeVersioned> Clone for Frame<V> {
    /// A frame that holds the same.
    fn clone(&self) -> (frame: Frame<V>)
        ensures
            frame@ == self@,
    {
        proof {
            use_type_invariant(self);
        }
        Frame {
            header: self.header.clone(),
            payload: self.payload.clone(),
            checksum: self.checksum,
            signature: self.signature,
        }
    }
}

impl<V: Versioned> Frame<V> {
    /// A builder that holds the header fields and the payload of this frame, without the
    /// signature and the "signed" flag. The checksum salt has to be set again.
    pub fn to_builder(&self) -> (builder: FrameBuilder<
        V,
        HasPayloadLen,
        Sequenced,
        HasSysId,
        HasCompId,
        HasMsgId,
        HasPayload,
        NoCrcExtra,
        NotSigned,
    >)
        ensures
            builder.header_builder.payload_length.0 == self@.header.payload_length,
            builder.header_builder.sequence.0 == self@.header.sequence,
            builder.header_builder.system_id.0 == self@.header.system_id,
            builder.header_builder.component_id.0 == self@.header.component_id,
            builder.header_builder.message_id.0 == self@.header.message_id,
            builder.header_builder.incompat_flags matches Some(flags) && flags@
                == crate::flags::with_signed_bit(self@.header.incompat_flags, false),
            builder.header_builder.compat_flags matches Some(flags) && flags@
                == self@.header.compat_flags,
            builder.payload.0.spec_bytes() == self@.payload,
            builder.payload.0.spec_id() == self@.payload_id,
            builder.payload.0.spec_version() == self@.payload_version,
            builder.payload.0.wf(),
    {
        FrameBuilder {
            header_builder: self.header.to_builder(),
            payload: HasPayload(self.payload.clone()),
            crc_extra: NoCrcExtra,
            signature: NotSigned,
        }
    }
}

} // verus!
