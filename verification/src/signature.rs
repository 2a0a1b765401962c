//! Signatures of `MAVLink 2` frames.

use vstd::prelude::*;
use vstd::std_specs::convert::FromSpecImpl;
use vstd::string::StringSliceAdditionalSpecFns;
use crate::consts::{
    SIGNATURE_LENGTH, SIGNATURE_SECRET_KEY_LENGTH, SIGNATURE_TIMESTAMP_LENGTH,
    SIGNATURE_TIMESTAMP_OFFSET, SIGNATURE_VALUE_LENGTH, TIMESTAMP_RAW_MAX,
};
use crate::bytes::{le16, same_bytes};
use crate::frame::Frame;
use crate::marker::MaybeVersioned;
use crate::types::{
    SignatureBytes, SignatureTimestampBytes, SignatureValue, SignedLinkId,
};

verus! {

/// Microseconds between the Unix epoch and the MAVLink epoch.
pub open spec fn epoch_offset() -> int {
    SIGNATURE_TIMESTAMP_OFFSET * 1_000_000
}

/// The byte of `value` at position `index`, counted from the least significant one.
pub open spec fn le_byte(value: int, index: nat) -> u8
    decreases index,
{
    if index == 0 {
        (value % 256) as u8
    } else {
        le_byte(value / 256, (index - 1) as nat)
    }
}

/// The first `count` bytes of `value`, least significant first.
pub open spec fn le_bytes(value: int, count: nat) -> Seq<u8> {
    Seq::new(count, |i: int| le_byte(value, i as nat))
}

/// The number that `bytes` spell, least significant byte first.
pub open spec fn le_value(bytes: Seq<u8>) -> int
    decreases bytes.len(),
{
    if bytes.len() == 0 {
        0
    } else {
        bytes[0] + 256 * le_value(bytes.skip(1))
    }
}

/// Two 48-bit numbers with the same six bytes are the same number.
pub proof fn lemma_le_bytes_48(a: u64, b: u64)
    requires
        a <= TIMESTAMP_RAW_MAX,
        b <= TIMESTAMP_RAW_MAX,
        le_bytes(a as int, 6) == le_bytes(b as int, 6),
    ensures
        a == b,
{
    reveal_with_fuel(le_byte, 7);
    let x = le_bytes(a as int, 6);
    let y = le_bytes(b as int, 6);
    assert(x[0] == y[0] && x[1] == y[1] && x[2] == y[2] && x[3] == y[3] && x[4] == y[4] && x[5]
        == y[5]);
    let a1 = a as int / 256;
    let a2 = a1 / 256;
    let a3 = a2 / 256;
    let a4 = a3 / 256;
    let a5 = a4 / 256;
    let b1 = b as int / 256;
    let b2 = b1 / 256;
    let b3 = b2 / 256;
    let b4 = b3 / 256;
    let b5 = b4 / 256;
    assert(a5 < 256 && b5 < 256);
    assert(a5 % 256 == b5 % 256);
    assert(a4 % 256 == b4 % 256);
    assert(a3 % 256 == b3 % 256);
    assert(a2 % 256 == b2 % 256);
    assert(a1 % 256 == b1 % 256);
    assert(a as int % 256 == b as int % 256);
    assert(a4 == b4);
    assert(a3 == b3);
    assert(a2 == b2);
    assert(a1 == b1);
}

/// Reading bytes and spelling the number again gives the bytes.
pub proof fn lemma_le_bytes_of_value(bytes: Seq<u8>)
    ensures
        0 <= le_value(bytes) < pow256(bytes.len()),
        le_bytes(le_value(bytes), bytes.len()) == bytes,
    decreases bytes.len(),
{
    if bytes.len() == 0 {
        assert(le_bytes(0, 0) =~= bytes);
    } else {
        let rest = bytes.skip(1);
        lemma_le_bytes_of_value(rest);
        let v = le_value(bytes);
        let r = le_value(rest);
        assert(v == bytes[0] + 256 * r);
        assert(v % 256 == bytes[0] as int && v / 256 == r);
        let spelled = le_bytes(v, bytes.len());
        assert forall|i: int| 0 <= i < bytes.len() implies spelled[i] == bytes[i] by {
            if i > 0 {
                assert(le_byte(v, i as nat) == le_byte(r, (i - 1) as nat));
                assert(le_bytes(r, rest.len())[i - 1] == rest[i - 1]);
            }
        }
        assert(spelled =~= bytes);
        assert(v < 256 * pow256(rest.len())) by (nonlinear_arith)
            requires
                v == bytes[0] + 256 * r,
                bytes[0] < 256,
                0 <= r < pow256(rest.len()),
        ;
    }
}

/// 256 to the power of `count`.
pub open spec fn pow256(count: nat) -> int
    decreases count,
{
    if count == 0 {
        1
    } else {
        256 * pow256((count - 1) as nat)
    }
}

/// Timestamp of a signature: a 48-bit count of 10-microsecond ticks since the MAVLink epoch
/// (1st January 2015 GMT).
#[derive(Clone, Copy, Debug, PartialEq, Eq, Structural)]
pub struct MavTimestamp {
    raw: u64,
}

impl MavTimestamp {
    #[verifier::type_invariant]
    pub(crate) open spec fn fits_48_bits(self) -> bool {
        self.wf()
    }

    /// The tick count.
    pub closed spec fn view(&self) -> u64 {
        self.raw
    }

    /// Whether the tick count fits into 48 bits.
    pub open spec fn wf(&self) -> bool {
        self@ <= TIMESTAMP_RAW_MAX
    }

    /// The timestamp of a time since the Unix epoch, counted as [`MavTimestamp::millis`]
    /// counts it: ten to a tick.
    pub fn from_millis(value: u64) -> (t: MavTimestamp)
        requires
            value >= epoch_offset(),
        ensures
            t.wf(),
            t@ == ((value - epoch_offset()) / 10) % 0x1_0000_0000_0000int,
    {
        let mut timestamp = MavTimestamp { raw: 0 };
        timestamp.set_millis(value);
        timestamp
    }

    /// The timestamp with the lower 48 bits of `value` as its tick count.
    pub fn from_raw_u64(value: u64) -> (t: MavTimestamp)
        ensures
            t.wf(),
            t@ == value % 0x1_0000_0000_0000u64,
    {
        let raw: u64 = value & 0xffff_ffff_ffff;
        assert(value & 0xffff_ffff_ffff == value % 0x1_0000_0000_0000) by (bit_vector);
        MavTimestamp { raw }
    }

    /// The timestamp that six bytes spell, least significant byte first.
    pub fn from_bytes(bytes: &SignatureTimestampBytes) -> (t: MavTimestamp)
        ensures
            t.wf(),
            t@ == le_value(bytes@),
            le_bytes(t@ as int, 6) == bytes@,
    {
        let mut raw: u64 = 0;
        let mut i: usize = SIGNATURE_TIMESTAMP_LENGTH;
        proof {
            assert(bytes@.skip(6) =~= Seq::<u8>::empty());
            reveal_with_fuel(pow256, 8);
        }
        while i > 0
            invariant
                i <= 6,
                raw == le_value(bytes@.skip(i as int)),
                raw < pow256((6 - i) as nat),
            decreases i,
        {
            i = i - 1;
            proof {
                reveal_with_fuel(pow256, 8);
                assert(bytes@.skip(i as int).skip(1) =~= bytes@.skip(i + 1));
                assert(bytes@.skip(i as int)[0] == bytes@[i as int]);
            }
            raw = raw * 256 + bytes[i] as u64;
        }
        proof {
            reveal_with_fuel(pow256, 8);
            assert(bytes@.skip(0) =~= bytes@);
            lemma_le_bytes_of_value(bytes@);
        }
        MavTimestamp { raw }
    }

    /// The tick count: tens of microseconds since the MAVLink epoch.
    pub fn raw(&self) -> (raw: u64)
        ensures
            raw == self@,
            raw <= TIMESTAMP_RAW_MAX,
    {
        proof {
            use_type_invariant(self);
        }
        self.raw
    }

    /// Sets the tick count to the lower 48 bits of `raw`.
    pub fn set_raw(&mut self, raw: u64)
        ensures
            final(self).wf(),
            final(self)@ == raw % 0x1_0000_0000_0000u64,
    {
        assert(raw & 0xffff_ffff_ffff == raw % 0x1_0000_0000_0000) by (bit_vector);
        self.raw = raw & 0xffff_ffff_ffff;
    }

    /// Time since the MAVLink epoch: ten times the tick count, a tick being ten microseconds.
    pub fn millis_mavlink(&self) -> (millis: u64)
        ensures
            millis == self@ * 10,
    {
        proof {
            use_type_invariant(self);
        }
        self.raw * 10
    }

    /// Sets the time since the MAVLink epoch. The tick count becomes a tenth of it, cut to 48
    /// bits.
    pub fn set_millis_mavlink(&mut self, millis_mavlink: u64)
        ensures
            final(self).wf(),
            final(self)@ == (millis_mavlink / 10) % 0x1_0000_0000_0000u64,
    {
        self.set_raw(millis_mavlink / 10);
    }

    /// Time since the Unix epoch: ten times the tick count plus the offset between the epochs.
    pub fn millis(&self) -> (millis: u64)
        ensures
            millis == self@ * 10 + epoch_offset(),
    {
        proof {
            use_type_invariant(self);
        }
        self.raw * 10 + SIGNATURE_TIMESTAMP_OFFSET * 1_000_000
    }

    /// Sets the time since the Unix epoch, which must not lie before the MAVLink epoch.
    pub fn set_millis(&mut self, millis: u64)
        requires
            millis >= epoch_offset(),
        ensures
            final(self).wf(),
            final(self)@ == ((millis - epoch_offset()) / 10) % 0x1_0000_0000_0000int,
    {
        self.set_millis_mavlink(millis - SIGNATURE_TIMESTAMP_OFFSET * 1_000_000);
    }

    /// The six bytes of the tick count, least significant byte first.
    pub fn to_bytes_array(&self) -> (bytes: SignatureTimestampBytes)
        ensures
            bytes@ == le_bytes(self@ as int, 6),
    {
        let mut bytes: SignatureTimestampBytes = [0u8; 6];
        let mut rest: u64 = self.raw;
        let mut i: usize = 0;
        while i < SIGNATURE_TIMESTAMP_LENGTH
            invariant
                i <= 6,
                forall|k: int| 0 <= k < i ==> bytes@[k] == le_byte(self@ as int, k as nat),
                forall|k: nat|
                    #[trigger] le_byte(rest as int, k) == le_byte(self@ as int, (k + i) as nat),
            decreases 6 - i,
        {
            let ghost before = rest;
            bytes[i] = (rest % 256) as u8;
            rest = rest / 256;
            proof {
                assert forall|k: nat| #[trigger] le_byte(rest as int, k) == le_byte(
                    self@ as int,
                    (k + i + 1) as nat,
                ) by {
                    assert(le_byte(before as int, k + 1) == le_byte(rest as int, k));
                }
                assert(le_byte(before as int, 0) == le_byte(self@ as int, i as nat));
            }
            i = i + 1;
        }
        assert(bytes@ =~= le_bytes(self@ as int, 6));
        bytes
    }
}

impl Default for MavTimestamp {
    /// The MAVLink epoch itself.
    fn default() -> (t: MavTimestamp)
        ensures
            t@ == 0,
    {
        MavTimestamp { raw: 0 }
    }
}

impl From<u64> for MavTimestamp {
    fn from(value: u64) -> (t: MavTimestamp)
        ensures
            t@ == value % 0x1_0000_0000_0000u64,
    {
        MavTimestamp::from_raw_u64(value)
    }
}

impl FromSpecImpl<u64> for MavTimestamp {
    open spec fn obeys_from_spec() -> bool {
        true
    }

    closed spec fn from_spec(value: u64) -> MavTimestamp {
        MavTimestamp { raw: (value % 0x1_0000_0000_0000) as u64 }
    }
}

impl From<SignatureTimestampBytes> for MavTimestamp {
    fn from(bytes: SignatureTimestampBytes) -> (t: MavTimestamp)
        ensures
            t.wf(),
            t@ == le_value(bytes@),
            le_bytes(t@ as int, 6) == bytes@,
    {
        MavTimestamp::from_bytes(&bytes)
    }
}

impl FromSpecImpl<SignatureTimestampBytes> for MavTimestamp {
    open spec fn obeys_from_spec() -> bool {
        false
    }

    closed spec fn from_spec(bytes: SignatureTimestampBytes) -> MavTimestamp {
        arbitrary()
    }
}

impl From<MavTimestamp> for SignatureTimestampBytes {
    fn from(timestamp: MavTimestamp) -> (bytes: SignatureTimestampBytes)
        ensures
            bytes@ == le_bytes(timestamp@ as int, 6),
    {
        timestamp.to_bytes_array()
    }
}

impl FromSpecImpl<MavTimestamp> for SignatureTimestampBytes {
    open spec fn obeys_from_spec() -> bool {
        false
    }

    closed spec fn from_spec(timestamp: MavTimestamp) -> SignatureTimestampBytes {
        arbitrary()
    }
}

/// A secret key: 32 bytes that both ends of a signed link know.
pub struct SecretKey {
    bytes: [u8; SIGNATURE_SECRET_KEY_LENGTH],
}

/// The 32 bytes of a key made from `value`: its first 32 bytes, followed by zeros if it has
/// fewer.
pub open spec fn key_bytes(value: Seq<u8>) -> Seq<u8> {
    Seq::new(
        SIGNATURE_SECRET_KEY_LENGTH as nat,
        |i: int|
            if i < value.len() {
                value[i]
            } else {
                0u8
            },
    )
}

impl SecretKey {
    /// The bytes of the key.
    pub closed spec fn view(&self) -> Seq<u8> {
        self.bytes@
    }

    /// The bytes of the key.
    pub fn value(&self) -> (bytes: &[u8])
        ensures
            bytes@ == self@,
            bytes@.len() == SIGNATURE_SECRET_KEY_LENGTH,
    {
        self.bytes.as_slice()
    }

    /// The key made from a slice: longer slices are cut, shorter ones are filled up with zeros.
    pub fn from_slice(value: &[u8]) -> (key: SecretKey)
        ensures
            key@ == key_bytes(value@),
    {
        let len: usize = if value.len() < SIGNATURE_SECRET_KEY_LENGTH {
            value.len()
        } else {
            SIGNATURE_SECRET_KEY_LENGTH
        };
        let mut bytes = [0u8; SIGNATURE_SECRET_KEY_LENGTH];
        let mut i: usize = 0;
        while i < len
            invariant
                i <= len,
                len <= value.len(),
                len <= 32,
                forall|k: int| 0 <= k < i ==> bytes@[k] == value@[k],
                forall|k: int| i <= k < 32 ==> bytes@[k] == 0,
            decreases len - i,
        {
            bytes[i] = value[i];
            i = i + 1;
        }
        assert(bytes@ =~= key_bytes(value@));
        SecretKey { bytes }
    }
}

impl Clone for SecretKey {
    /// A key with the same bytes.
    fn clone(&self) -> (key: SecretKey)
        ensures
            key@ == self@,
    {
        SecretKey { bytes: self.bytes }
    }
}

impl Default for SecretKey {
    /// The key of 32 zeros.
    fn default() -> (key: SecretKey)
        ensures
            key@ == key_bytes(Seq::empty()),
    {
        let bytes = [0u8; SIGNATURE_SECRET_KEY_LENGTH];
        assert(bytes@ =~= key_bytes(Seq::empty()));
        SecretKey { bytes }
    }
}

impl From<[u8; SIGNATURE_SECRET_KEY_LENGTH]> for SecretKey {
    fn from(value: [u8; SIGNATURE_SECRET_KEY_LENGTH]) -> (key: SecretKey)
        ensures
            key@ == value@,
    {
        SecretKey { bytes: value }
    }
}

impl FromSpecImpl<[u8; SIGNATURE_SECRET_KEY_LENGTH]> for SecretKey {
    open spec fn obeys_from_spec() -> bool {
        true
    }

    closed spec fn from_spec(value: [u8; SIGNATURE_SECRET_KEY_LENGTH]) -> SecretKey {
        SecretKey { bytes: value }
    }
}

impl From<&[u8]> for SecretKey {
    fn from(value: &[u8]) -> (key: SecretKey)
        ensures
            key@ == key_bytes(value@),
    {
        SecretKey::from_slice(value)
    }
}

impl FromSpecImpl<&[u8]> for SecretKey {
    open spec fn obeys_from_spec() -> bool {
        false
    }

    closed spec fn from_spec(value: &[u8]) -> SecretKey {
        arbitrary()
    }
}

impl From<&str> for SecretKey {
    fn from(value: &str) -> (key: SecretKey)
        ensures
            key@ == key_bytes(value.spec_bytes()),
    {
        SecretKey::from_slice(value.as_bytes())
    }
}

impl FromSpecImpl<&str> for SecretKey {
    open spec fn obeys_from_spec() -> bool {
        false
    }

    closed spec fn from_spec(value: &str) -> SecretKey {
        arbitrary()
    }
}

impl From<String> for SecretKey {
    fn from(value: String) -> (key: SecretKey)
        ensures
            key@ == key_bytes(vstd::utf8::encode_utf8(value@)),
    {
        SecretKey::from_slice(value.as_str().as_bytes())
    }
}

impl FromSpecImpl<String> for SecretKey {
    open spec fn obeys_from_spec() -> bool {
        false
    }

    closed spec fn from_spec(value: String) -> SecretKey {
        arbitrary()
    }
}

impl From<&String> for SecretKey {
    fn from(value: &String) -> (key: SecretKey)
        ensures
            key@ == key_bytes(vstd::utf8::encode_utf8(value@)),
    {
        SecretKey::from_slice(value.as_str().as_bytes())
    }
}

impl FromSpecImpl<&String> for SecretKey {
    open spec fn obeys_from_spec() -> bool {
        false
    }

    closed spec fn from_spec(value: &String) -> SecretKey {
        arbitrary()
    }
}

/// Signature of a `MAVLink 2` frame.
#[derive(Clone, Copy, Debug, PartialEq, Eq)]
pub struct Signature {
    /// Identifier of the link the frame was sent over.
    pub link_id: SignedLinkId,
    /// Time of signing.
    pub timestamp: MavTimestamp,
    /// The 48-bit digest.
    pub value: SignatureValue,
}

/// The 13 bytes of a signature on the wire: link identifier, timestamp, digest.
pub open spec fn signature_bytes(link_id: u8, timestamp: u64, value: Seq<u8>) -> Seq<u8> {
    seq![link_id] + le_bytes(timestamp as int, 6) + value
}

impl Signature {
    /// The bytes of this signature on the wire.
    pub open spec fn spec_bytes(&self) -> Seq<u8> {
        signature_bytes(self.link_id, self.timestamp@, self.value@)
    }

    /// Identifier of the link the frame was sent over.
    pub fn link_id(&self) -> (id: SignedLinkId)
        ensures
            id == self.link_id,
    {
        self.link_id
    }

    /// Time of signing.
    pub fn timestamp(&self) -> (t: MavTimestamp)
        ensures
            t == self.timestamp,
    {
        self.timestamp
    }

    /// The 48-bit digest.
    pub fn value(&self) -> (v: SignatureValue)
        ensures
            v == self.value,
    {
        self.value
    }

    /// The signature that 13 bytes from the wire spell.
    pub fn from_byte_array(bytes: SignatureBytes) -> (s: Signature)
        ensures
            s.spec_bytes() == bytes@,
            s.timestamp.wf(),
    {
        Signature::from_slice(bytes.as_slice())
    }

    /// The 13 bytes of this signature on the wire.
    pub fn to_byte_array(&self) -> (bytes: SignatureBytes)
        ensures
            bytes@ == self.spec_bytes(),
    {
        let mut bytes: SignatureBytes = [0u8; 13];
        let timestamp = self.timestamp.to_bytes_array();
        bytes[0] = self.link_id;
        let mut i: usize = 0;
        while i < SIGNATURE_TIMESTAMP_LENGTH
            invariant
                i <= 6,
                bytes@[0] == self.link_id,
                forall|k: int| 0 <= k < i ==> bytes@[1 + k] == timestamp@[k],
            decreases 6 - i,
        {
            bytes[1 + i] = timestamp[i];
            i = i + 1;
        }
        let mut j: usize = 0;
        while j < SIGNATURE_VALUE_LENGTH
            invariant
                j <= 6,
                bytes@[0] == self.link_id,
                forall|k: int| 0 <= k < 6 ==> bytes@[1 + k] == timestamp@[k],
                forall|k: int| 0 <= k < j ==> bytes@[7 + k] == self.value@[k],
            decreases 6 - j,
        {
            bytes[7 + j] = self.value[j];
            j = j + 1;
        }
        assert(bytes@ =~= self.spec_bytes());
        bytes
    }

    /// The signature that the first 13 bytes of a slice spell.
    pub fn from_slice(bytes: &[u8]) -> (s: Signature)
        requires
            bytes@.len() >= SIGNATURE_LENGTH,
        ensures
            s.spec_bytes() == bytes@.take(SIGNATURE_LENGTH as int),
            s.timestamp.wf(),
    {
        let link_id = bytes[0];
        let mut timestamp_bytes: SignatureTimestampBytes = [0u8; 6];
        let mut value: SignatureValue = [0u8; 6];
        let mut i: usize = 0;
        while i < 6
            invariant
                i <= 6,
                bytes@.len() >= 13,
                forall|k: int| 0 <= k < i ==> timestamp_bytes@[k] == bytes@[1 + k],
                forall|k: int| 0 <= k < i ==> value@[k] == bytes@[7 + k],
            decreases 6 - i,
        {
            timestamp_bytes[i] = bytes[1 + i];
            value[i] = bytes[7 + i];
            i = i + 1;
        }
        let timestamp = MavTimestamp::from_bytes(&timestamp_bytes);
        let s = Signature { link_id, timestamp, value };
        assert(s.spec_bytes() =~= bytes@.take(13));
        s
    }

    /// The signature that the first 13 bytes of a slice spell, if the slice has that many.
    /// Bytes past the 13th are not looked at.
    pub fn try_from_slice(bytes: &[u8]) -> (r: Option<Signature>)
        ensures
            r is Some <==> bytes@.len() >= SIGNATURE_LENGTH,
            r matches Some(s) ==> s.spec_bytes() == bytes@.take(SIGNATURE_LENGTH as int)
                && s.timestamp.wf(),
    {
        if bytes.len() < SIGNATURE_LENGTH {
            return None;
        }
        Some(Signature::from_slice(bytes))
    }
}

impl From<SignatureBytes> for Signature {
    fn from(value: SignatureBytes) -> (s: Signature)
        ensures
            s.spec_bytes() == value@,
            s.timestamp.wf(),
    {
        Signature::from_byte_array(value)
    }
}

impl FromSpecImpl<SignatureBytes> for Signature {
    open spec fn obeys_from_spec() -> bool {
        false
    }

    closed spec fn from_spec(value: SignatureBytes) -> Signature {
        arbitrary()
    }
}

impl From<Signature> for SignatureBytes {
    fn from(value: Signature) -> (bytes: SignatureBytes)
        ensures
            bytes@ == value.spec_bytes(),
    {
        value.to_byte_array()
    }
}

impl FromSpecImpl<Signature> for SignatureBytes {
    open spec fn obeys_from_spec() -> bool {
        false
    }

    closed spec fn from_spec(value: Signature) -> SignatureBytes {
        arbitrary()
    }
}

/// A signature and its 13 bytes stand for each other.
pub proof fn lemma_signature_round_trip(a: Signature, b: Signature)
    requires
        a.timestamp.wf(),
        b.timestamp.wf(),
        a.spec_bytes() == b.spec_bytes(),
    ensures
        a == b,
{
    let x = a.spec_bytes();
    let y = b.spec_bytes();
    assert(a.link_id == x[0] && b.link_id == y[0]);
    assert(a.value@ =~= x.skip(7));
    assert(b.value@ =~= y.skip(7));
    assert(a.value@ == b.value@);
    assert(a.value =~= b.value);
    assert(le_bytes(a.timestamp@ as int, 6) =~= x.subrange(1, 7));
    assert(le_bytes(b.timestamp@ as int, 6) =~= y.subrange(1, 7));
    lemma_le_bytes_48(a.timestamp@, b.timestamp@);
    assert(a.timestamp@ == b.timestamp@);
    assert(a.timestamp.raw == b.timestamp.raw);
}

/// Computes the 48-bit digest of a signature.
///
/// An implementor takes bytes in any number of pieces and gives six bytes for what it took
/// since the last reset. What it gives depends on the bytes alone, not on the pieces they came
/// in.
pub trait Sign {
    /// The bytes taken since the last reset.
    ///
    /// An implementor in verified code says what they are. The default says nothing.
    open spec fn input(&self) -> Seq<u8> {
        arbitrary()
    }

    /// The digest of `input`.
    ///
    /// An implementor in verified code says what it is. The default says nothing.
    open spec fn value_of(input: Seq<u8>) -> Seq<u8> {
        arbitrary()
    }

    /// Forgets the bytes taken so far.
    fn reset(&mut self)
        ensures
            final(self).input() == Seq::<u8>::empty(),
    ;

    /// Takes `bytes`.
    fn digest(&mut self, bytes: &[u8])
        ensures
            final(self).input() == old(self).input() + bytes@,
    ;

    /// The digest of the bytes taken since the last reset.
    fn produce(&self) -> (value: SignatureValue)
        ensures
            value@ == Self::value_of(self.input()),
    ;
}

/// What an implementor of [`Sign`] gives does not depend on the pieces its input came in:
/// taking two pieces one after the other is taking them as one.
pub proof fn lemma_signing_ignores_chunking<S: Sign>(
    taken: Seq<u8>,
    first: Seq<u8>,
    second: Seq<u8>,
)
    ensures
        (taken + first) + second == taken + (first + second),
        S::value_of((taken + first) + second) == S::value_of(taken + (first + second)),
{
    assert((taken + first) + second =~= taken + (first + second));
}

/// The bytes that are signed: the secret key, the header, the payload, the checksum, the link
/// identifier and the timestamp, in this order.
pub open spec fn signing_input(
    key: Seq<u8>,
    header: Seq<u8>,
    payload: Seq<u8>,
    checksum: u16,
    link_id: u8,
    timestamp: u64,
) -> Seq<u8> {
    key + header + payload + le16(checksum) + seq![link_id] + le_bytes(timestamp as int, 6)
}

/// The signature value of `frame` for the given link, time and key, computed by `signer`.
///
/// The signer is reset and then takes the signing input: key, header, payload, checksum, link
/// and time.
pub fn signature_value<S: Sign, V: MaybeVersioned>(
    signer: &mut S,
    frame: &Frame<V>,
    link_id: SignedLinkId,
    timestamp: MavTimestamp,
    key: &SecretKey,
) -> (value: SignatureValue)
    ensures
        value@ == S::value_of(frame@.signing_input(key@, link_id, timestamp@)),
        final(signer).input() == frame@.signing_input(key@, link_id, timestamp@),
{
    signer.reset();
    signer.digest(key.value());
    let header = frame.header().decode();
    signer.digest(header.as_slice());
    signer.digest(frame.payload().bytes());
    let checksum = checksum_bytes(frame.checksum());
    signer.digest(checksum.as_slice());
    let link = [link_id];
    signer.digest(link.as_slice());
    let time = timestamp.to_bytes_array();
    signer.digest(time.as_slice());
    proof {
        assert(link@ =~= seq![link_id]);
        assert(signer.input() =~= frame@.signing_input(key@, link_id, timestamp@));
    }
    signer.produce()
}

/// Feeds frames into an implementor of [`Sign`].
pub struct Signer<'a, S: Sign> {
    inner: &'a mut S,
}

impl<'a, S: Sign> Signer<'a, S> {
    /// The bytes that the implementor took since its last reset.
    pub closed spec fn input(&self) -> Seq<u8> {
        self.inner.input()
    }

    /// A signer over `signer`.
    pub fn new(signer: &'a mut S) -> (this: Signer<'a, S>)
        ensures
            this.input() == old(signer).input(),
    {
        Signer { inner: signer }
    }

    /// The signature value of `frame` for the given link, time and key.
    pub fn calculate<V: MaybeVersioned>(
        &mut self,
        frame: &Frame<V>,
        link_id: SignedLinkId,
        timestamp: MavTimestamp,
        key: &SecretKey,
    ) -> (value: SignatureValue)
        ensures
            value@ == S::value_of(frame@.signing_input(key@, link_id, timestamp@)),
            final(self).input() == frame@.signing_input(key@, link_id, timestamp@),
    {
        signature_value(self.inner, frame, link_id, timestamp, key)
    }

    /// Whether `signature` is the signature of `frame` under `key`.
    pub fn validate<V: MaybeVersioned>(
        &mut self,
        frame: &Frame<V>,
        signature: &Signature,
        key: &SecretKey,
    ) -> (valid: bool)
        ensures
            valid == (signature.value@ == S::value_of(
                frame@.signing_input(key@, signature.link_id, signature.timestamp@),
            )),
            final(self).input() == frame@.signing_input(
                key@,
                signature.link_id,
                signature.timestamp@,
            ),
    {
        let expected = self.calculate(frame, signature.link_id, signature.timestamp, key);
        same_bytes(expected.as_slice(), signature.value.as_slice())
    }
}

/// The two bytes of a checksum, least significant byte first.
pub fn checksum_bytes(checksum: u16) -> (bytes: [u8; 2])
    ensures
        bytes@ == le16(checksum),
{
    let bytes = [(checksum % 256) as u8, (checksum / 256) as u8];
    assert(bytes@ =~= le16(checksum));
    bytes
}

/// What a frame is signed with: the link, the time and the secret key.
pub struct SignatureConf {
    /// Identifier of the link the frame is sent over.
    pub link_id: SignedLinkId,
    /// Time of signing.
    pub timestamp: MavTimestamp,
    /// The secret key.
    pub secret: SecretKey,
}

/// Another name for [`SignatureConf`].
pub type SigningConf = SignatureConf;

impl SignatureConf {
    /// Signs `frame` if it is a `MAVLink 2` frame, and leaves it as it is otherwise.
    ///
    /// Signing sets the "signed" flag of the header and attaches the signature of the frame,
    /// flag included, for the link, time and key of this configuration. The checksum stays.
    pub fn apply<V: MaybeVersioned, S: Sign>(&self, frame: &mut Frame<V>, signer: &mut S)
        ensures
            final(frame)@.is_signing_of::<S>(
                old(frame)@,
                self.secret@,
                self.link_id,
                self.timestamp,
            ),
            old(frame)@.wf() ==> final(frame)@.wf(),
            final(signer).input() == old(frame)@.signer_input_after_signing(
                old(signer).input(),
                self.secret@,
                self.link_id,
                self.timestamp,
            ),
    {
        proof {
            use_type_invariant(self.timestamp);
        }
        frame.sign(signer, self.link_id, self.timestamp, &self.secret);
    }
}

impl Clone for SignatureConf {
    /// A configuration with the same link, time and key.
    fn clone(&self) -> (conf: SignatureConf)
        ensures
            conf.link_id == self.link_id,
            conf.timestamp == self.timestamp,
            conf.secret@ == self.secret@,
    {
        SignatureConf {
            link_id: self.link_id,
            timestamp: self.timestamp,
            secret: self.secret.clone(),
        }
    }
}

impl Default for SignatureConf {
    /// Link zero at the MAVLink epoch with a key of 32 bytes `0xff`.
    fn default() -> (conf: SignatureConf)
        ensures
            conf.link_id == 0,
            conf.timestamp@ == 0,
            conf.secret@ == Seq::new(32, |i: int| 0xffu8),
    {
        let secret = SecretKey { bytes: [0xffu8; SIGNATURE_SECRET_KEY_LENGTH] };
        assert(secret@ =~= Seq::new(32, |i: int| 0xffu8));
        SignatureConf { link_id: 0, timestamp: MavTimestamp { raw: 0 }, secret }
    }
}

} // verus!
