//! Message payload: the bytes of an encoded message with its identifier and protocol version.

use vstd::prelude::*;
use vstd::slice::{slice_subrange, slice_to_vec};
use crate::consts::PAYLOAD_MAX_SIZE;
use crate::types::{MavLinkVersion, MessageId};

verus! {

/// Length of `bytes` without its trailing zeros, but never less than one: the first byte of a
/// payload is kept whatever it holds.
pub open spec fn truncated_length(bytes: Seq<u8>) -> nat
    decreases bytes.len(),
{
    if bytes.len() <= 1 {
        1
    } else if bytes.last() != 0 {
        bytes.len()
    } else {
        truncated_length(bytes.drop_last())
    }
}

/// At most the first 255 of `bytes`.
pub open spec fn capped(bytes: Seq<u8>) -> Seq<u8> {
    if bytes.len() > PAYLOAD_MAX_SIZE {
        bytes.take(PAYLOAD_MAX_SIZE as int)
    } else {
        bytes
    }
}

/// The bytes that a payload made from `bytes` holds.
///
/// `MAVLink 1` keeps the bytes as they are. `MAVLink 2` drops trailing zeros and keeps at least
/// one byte, so that an empty payload becomes a single zero.
pub open spec fn payload_bytes(bytes: Seq<u8>, version: MavLinkVersion) -> Seq<u8> {
    let content = capped(bytes);
    match version {
        MavLinkVersion::V1 => content,
        MavLinkVersion::V2 => if content.len() == 0 {
            seq![0u8]
        } else {
            content.take(truncated_length(content) as int)
        },
    }
}

/// The truncated length is at least one, reaches past the end only of an empty sequence, cuts
/// off nothing but zeros, and ends on a byte that is not zero unless it is one.
pub proof fn lemma_truncated_length(bytes: Seq<u8>)
    ensures
        1 <= truncated_length(bytes),
        bytes.len() >= 1 ==> truncated_length(bytes) <= bytes.len(),
        forall|i: int| truncated_length(bytes) <= i < bytes.len() ==> bytes[i] == 0,
        truncated_length(bytes) >= 2 ==> bytes[truncated_length(bytes) - 1] != 0,
    decreases bytes.len(),
{
    if bytes.len() > 1 && bytes.last() == 0 {
        let shorter = bytes.drop_last();
        lemma_truncated_length(shorter);
        assert forall|i: int| truncated_length(bytes) <= i < bytes.len() implies bytes[i]
            == 0 by {
            if i < shorter.len() {
                assert(shorter[i] == bytes[i]);
            }
        }
        if truncated_length(bytes) >= 2 {
            assert(shorter[truncated_length(bytes) - 1] == bytes[truncated_length(bytes) - 1]);
        }
    }
}

/// Zeros appended to a sequence do not change its truncated length.
pub proof fn lemma_truncated_length_ignores_zeros(bytes: Seq<u8>, zeros: Seq<u8>)
    requires
        forall|i: int| 0 <= i < zeros.len() ==> zeros[i] == 0,
    ensures
        truncated_length(bytes + zeros) == truncated_length(bytes),
    decreases zeros.len(),
{
    if zeros.len() == 0 {
        assert(bytes + zeros =~= bytes);
    } else {
        let all = bytes + zeros;
        assert(all.last() == 0);
        assert(all.drop_last() =~= bytes + zeros.drop_last());
        lemma_truncated_length_ignores_zeros(bytes, zeros.drop_last());
        if all.len() <= 1 {
            assert(bytes.len() == 0);
        }
    }
}

/// A `MAVLink 2` payload made from bytes followed by zeros holds what a payload made from the
/// bytes alone holds: trailing zeros never reach the wire.
pub proof fn lemma_payload_ignores_trailing_zeros(bytes: Seq<u8>, zeros: Seq<u8>)
    requires
        forall|i: int| 0 <= i < zeros.len() ==> zeros[i] == 0,
    ensures
        payload_bytes(bytes + zeros, MavLinkVersion::V2) == payload_bytes(
            bytes,
            MavLinkVersion::V2,
        ),
{
    let all = bytes + zeros;
    if bytes.len() >= PAYLOAD_MAX_SIZE {
        assert(capped(all) =~= capped(bytes));
    } else {
        let kept = capped(all);
        let tail = kept.skip(bytes.len() as int);
        assert(kept =~= bytes + tail);
        assert forall|i: int| 0 <= i < tail.len() implies tail[i] == 0 by {
            assert(tail[i] == all[bytes.len() + i]);
            assert(all[bytes.len() + i] == zeros[i]);
        }
        lemma_truncated_length_ignores_zeros(bytes, tail);
        lemma_truncated_length(bytes);
        if bytes.len() == 0 {
            if kept.len() > 0 {
                assert(kept.take(1) =~= seq![0u8]) by {
                    assert(kept[0] == tail[0]);
                }
            }
        } else {
            assert(kept.take(truncated_length(bytes) as int) =~= bytes.take(
                truncated_length(bytes) as int,
            ));
        }
    }
}

/// What a payload holds is never longer than 255 bytes, a `MAVLink 2` payload is never empty,
/// and making a payload from what a payload holds changes nothing.
pub proof fn lemma_payload_bytes(bytes: Seq<u8>, version: MavLinkVersion)
    ensures
        payload_bytes(bytes, version).len() <= PAYLOAD_MAX_SIZE,
        version == MavLinkVersion::V2 ==> payload_bytes(bytes, version).len() >= 1,
        payload_bytes(payload_bytes(bytes, version), version) == payload_bytes(bytes, version),
{
    let content = capped(bytes);
    lemma_truncated_length(content);
    let held = payload_bytes(bytes, version);
    if version == MavLinkVersion::V2 {
        if content.len() == 0 {
            assert(truncated_length(seq![0u8]) == 1);
            assert(seq![0u8].take(1) =~= seq![0u8]);
        } else {
            let n = truncated_length(content) as int;
            let zeros = content.skip(n);
            assert(content =~= held + zeros);
            lemma_truncated_length_ignores_zeros(held, zeros);
            assert(held.take(n) =~= held);
        }
    }
}

/// Number of bytes of `slice` that a `MAVLink 2` payload keeps.
fn truncated_len(slice: &[u8]) -> (n: usize)
    ensures
        n == truncated_length(slice@),
{
    let mut n: usize = slice.len();
    assert(slice@.take(n as int) =~= slice@);
    while n > 1 && slice[n - 1] == 0
        invariant
            n <= slice.len(),
            truncated_length(slice@) == truncated_length(slice@.take(n as int)),
        decreases n,
    {
        proof {
            assert(slice@.take(n as int).drop_last() =~= slice@.take(n - 1));
        }
        n = n - 1;
    }
    if n <= 1 {
        1
    } else {
        n
    }
}

/// Bytes of an encoded message.
///
/// A payload holds at most 255 bytes.
#[derive(Debug)]
pub struct Payload {
    id: MessageId,
    bytes: Vec<u8>,
    version: MavLinkVersion,
}

impl Payload {
    #[verifier::type_invariant]
    pub(crate) open spec fn holds_at_most_255(self) -> bool {
        self.wf()
    }

    /// Identifier of the message.
    pub closed spec fn spec_id(&self) -> MessageId {
        self.id
    }

    /// Bytes of the message.
    pub closed spec fn spec_bytes(&self) -> Seq<u8> {
        self.bytes@
    }

    /// Protocol version the message was encoded for.
    pub closed spec fn spec_version(&self) -> MavLinkVersion {
        self.version
    }

    /// Whether the payload fits into a frame.
    pub open spec fn wf(&self) -> bool {
        self.spec_bytes().len() <= PAYLOAD_MAX_SIZE
    }

    /// A payload of `version` for the message `id`, made from `payload`.
    ///
    /// Bytes past the 255th are dropped. For `MAVLink 2` trailing zeros are dropped as well,
    /// down to the first byte.
    pub fn new(id: MessageId, payload: &[u8], version: MavLinkVersion) -> (p: Payload)
        ensures
            p.wf(),
            p.spec_id() == id,
            p.spec_version() == version,
            p.spec_bytes() == payload_bytes(payload@, version),
    {
        let max_size: usize = if payload.len() > PAYLOAD_MAX_SIZE {
            PAYLOAD_MAX_SIZE
        } else {
            payload.len()
        };
        let content = slice_subrange(payload, 0, max_size);
        assert(content@ =~= capped(payload@));
        let bytes = match version {
            MavLinkVersion::V1 => slice_to_vec(content),
            MavLinkVersion::V2 => {
                if max_size == 0 {
                    let mut single: Vec<u8> = Vec::new();
                    single.push(0u8);
                    assert(single@ =~= seq![0u8]);
                    single
                } else {
                    let length = truncated_len(content);
                    proof {
                        lemma_truncated_length(content@);
                    }
                    slice_to_vec(slice_subrange(content, 0, length))
                }
            },
        };
        Payload { id, bytes, version }
    }

    /// A payload that holds `bytes` as they are, for frames that were read from the wire.
    pub(crate) fn from_wire(id: MessageId, bytes: Vec<u8>, version: MavLinkVersion) -> (p: Payload)
        requires
            bytes@.len() <= PAYLOAD_MAX_SIZE,
        ensures
            p.wf(),
            p.spec_id() == id,
            p.spec_version() == version,
            p.spec_bytes() == bytes@,
    {
        Payload { id, bytes, version }
    }

    /// Identifier of the message.
    pub fn id(&self) -> (id: MessageId)
        ensures
            id == self.spec_id(),
    {
        self.id
    }

    /// Bytes of the message.
    pub fn bytes(&self) -> (bytes: &[u8])
        ensures
            bytes@ == self.spec_bytes(),
            bytes@.len() <= PAYLOAD_MAX_SIZE,
    {
        proof {
            use_type_invariant(self);
        }
        self.bytes.as_slice()
    }

    /// Protocol version the message was encoded for.
    pub fn version(&self) -> (version: MavLinkVersion)
        ensures
            version == self.spec_version(),
    {
        self.version
    }

    /// Number of bytes.
    pub fn length(&self) -> (length: u8)
        ensures
            length == self.spec_bytes().len(),
    {
        proof {
            use_type_invariant(self);
        }
        self.bytes.len() as u8
    }

    /// Moves the payload to `MAVLink 2`. The bytes stay as they are.
    pub fn upgrade(&mut self)
        ensures
            final(self).wf(),
            final(self).spec_id() == old(self).spec_id(),
            final(self).spec_bytes() == old(self).spec_bytes(),
            final(self).spec_version() == MavLinkVersion::V2,
    {
        proof {
            use_type_invariant(&*self);
        }
        self.version = MavLinkVersion::V2;
    }

    /// The same payload for `MAVLink 2`. The bytes stay as they are.
    pub fn upgraded(self) -> (p: Payload)
        ensures
            p.wf(),
            p.spec_id() == self.spec_id(),
            p.spec_bytes() == self.spec_bytes(),
            p.spec_version() == MavLinkVersion::V2,
    {
        proof {
            use_type_invariant(&self);
        }
        Payload { id: self.id, bytes: self.bytes, version: MavLinkVersion::V2 }
    }
}

impl Clone for Payload {
    /// A payload with the same content.
    fn clone(&self) -> (p: Payload)
        ensures
            p.wf(),
            p.spec_id() == self.spec_id(),
            p.spec_bytes() == self.spec_bytes(),
            p.spec_version() == self.spec_version(),
    {
        proof {
            use_type_invariant(self);
        }
        Payload { id: self.id, bytes: slice_to_vec(self.bytes.as_slice()), version: self.version }
    }
}

} // verus!
