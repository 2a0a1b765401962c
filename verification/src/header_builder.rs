//! Builder of frame headers.

use vstd::prelude::*;
use core::marker::PhantomData;
use crate::flags::{with_signed_bit, CompatFlags, IncompatFlags};
use crate::header::{Header, HeaderView};
use crate::marker::{
    HasCompId, HasMsgId, HasPayloadLen, HasSysId, IsCompId, IsMsgId, IsPayloadLen, IsSequenced,
    IsSysId, MaybeVersioned, NoCompId, NoMsgId, NoPayloadLen, NoSysId, NotSequenced, Sequenced,
    Versioned, Versionless, V1, V2,
};
use crate::types::{
    ComponentId, MavLinkVersion, MessageId, PayloadLength, Sequence, SystemId,
};

verus! {

/// The flags of a builder as a byte: no flags are flags with no bit set.
pub open spec fn incompat_bits(flags: Option<IncompatFlags>) -> u8 {
    match flags {
        Some(flags) => flags@,
        None => 0,
    }
}

/// The flags of a builder as a byte: no flags are flags with no bit set.
pub open spec fn compat_bits(flags: Option<CompatFlags>) -> u8 {
    match flags {
        Some(flags) => flags@,
        None => 0,
    }
}

/// Builder of a [`Header`].
///
/// The type parameters record the protocol version and which fields are set. A header can be
/// built once the version and every field are there; flags that were not set are empty.
#[derive(Debug)]
pub struct HeaderBuilder<
    V: MaybeVersioned,
    L: IsPayloadLen,
    Sq: IsSequenced,
    S: IsSysId,
    C: IsCompId,
    M: IsMsgId,
> {
    /// Protocol version.
    pub mavlink_version: PhantomData<V>,
    /// Number of payload bytes.
    pub payload_length: L,
    /// Incompatibility flags.
    pub incompat_flags: Option<IncompatFlags>,
    /// Compatibility flags.
    pub compat_flags: Option<CompatFlags>,
    /// Sequence number.
    pub sequence: Sq,
    /// System identifier.
    pub system_id: S,
    /// Component identifier.
    pub component_id: C,
    /// Message identifier.
    pub message_id: M,
}

impl HeaderBuilder<Versionless, NoPayloadLen, NotSequenced, NoSysId, NoCompId, NoMsgId> {
    /// A builder with no field set.
    pub fn new() -> (builder: Self)
        ensures
            builder.incompat_flags is None,
            builder.compat_flags is None,
    {
        HeaderBuilder {
            mavlink_version: PhantomData,
            payload_length: NoPayloadLen,
            incompat_flags: None,
            compat_flags: None,
            sequence: NotSequenced,
            system_id: NoSysId,
            component_id: NoCompId,
            message_id: NoMsgId,
        }
    }
}

impl<
    V: MaybeVersioned,
    L: IsPayloadLen,
    Sq: IsSequenced,
    S: IsSysId,
    C: IsCompId,
    M: IsMsgId,
> HeaderBuilder<V, L, Sq, S, C, M> {
    /// Binds the builder to a protocol version. `MAVLink 1` has no flags, so binding to it drops
    /// them.
    pub fn version<Version: Versioned>(self, version: Version) -> (builder: HeaderBuilder<
        Version,
        L,
        Sq,
        S,
        C,
        M,
    >)
        ensures
            builder.payload_length == self.payload_length,
            builder.sequence == self.sequence,
            builder.system_id == self.system_id,
            builder.component_id == self.component_id,
            builder.message_id == self.message_id,
            Version::bound() == Some(MavLinkVersion::V1) ==> builder.incompat_flags is None
                && builder.compat_flags is None,
            Version::bound() != Some(MavLinkVersion::V1) ==> builder.incompat_flags
                == self.incompat_flags && builder.compat_flags == self.compat_flags,
    {
        let to_v1 = Version::matches(MavLinkVersion::V1);
        let this_version = Version::version();
        let mut header = HeaderBuilder {
            mavlink_version: PhantomData,
            payload_length: self.payload_length,
            incompat_flags: self.incompat_flags,
            compat_flags: self.compat_flags,
            sequence: self.sequence,
            system_id: self.system_id,
            component_id: self.component_id,
            message_id: self.message_id,
        };
        if to_v1 {
            header.incompat_flags = None;
            header.compat_flags = None;
        }
        header
    }

    /// Sets the number of payload bytes.
    pub fn payload_length(self, payload_length: PayloadLength) -> (builder: HeaderBuilder<
        V,
        HasPayloadLen,
        Sq,
        S,
        C,
        M,
    >)
        ensures
            builder.payload_length.0 == payload_length,
            builder.incompat_flags == self.incompat_flags,
            builder.compat_flags == self.compat_flags,
            builder.sequence == self.sequence,
            builder.system_id == self.system_id,
            builder.component_id == self.component_id,
            builder.message_id == self.message_id,
    {
        HeaderBuilder {
            mavlink_version: self.mavlink_version,
            payload_length: HasPayloadLen(payload_length),
            incompat_flags: self.incompat_flags,
            compat_flags: self.compat_flags,
            sequence: self.sequence,
            system_id: self.system_id,
            component_id: self.component_id,
            message_id: self.message_id,
        }
    }

    /// Sets the incompatibility flags, which makes the header one of `MAVLink 2`.
    pub fn incompat_flags(self, incompat_flags: IncompatFlags) -> (builder: HeaderBuilder<
        V2,
        L,
        Sq,
        S,
        C,
        M,
    >)
        ensures
            builder.incompat_flags == Some(incompat_flags),
            builder.compat_flags == self.compat_flags,
            builder.payload_length == self.payload_length,
            builder.sequence == self.sequence,
            builder.system_id == self.system_id,
            builder.component_id == self.component_id,
            builder.message_id == self.message_id,
    {
        HeaderBuilder {
            mavlink_version: PhantomData,
            payload_length: self.payload_length,
            incompat_flags: Some(incompat_flags),
            compat_flags: self.compat_flags,
            sequence: self.sequence,
            system_id: self.system_id,
            component_id: self.component_id,
            message_id: self.message_id,
        }
    }

    /// Sets the compatibility flags, which makes the header one of `MAVLink 2`.
    pub fn compat_flags(self, compat_flags: CompatFlags) -> (builder: HeaderBuilder<
        V2,
        L,
        Sq,
        S,
        C,
        M,
    >)
        ensures
            builder.incompat_flags == self.incompat_flags,
            builder.compat_flags == Some(compat_flags),
            builder.payload_length == self.payload_length,
            builder.sequence == self.sequence,
            builder.system_id == self.system_id,
            builder.component_id == self.component_id,
            builder.message_id == self.message_id,
    {
        HeaderBuilder {
            mavlink_version: PhantomData,
            payload_length: self.payload_length,
            incompat_flags: self.incompat_flags,
            compat_flags: Some(compat_flags),
            sequence: self.sequence,
            system_id: self.system_id,
            component_id: self.component_id,
            message_id: self.message_id,
        }
    }

    /// Sets the sequence number.
    pub fn sequence(self, sequence: Sequence) -> (builder: HeaderBuilder<V, L, Sequenced, S, C, M>)
        ensures
            builder.sequence.0 == sequence,
            builder.incompat_flags == self.incompat_flags,
            builder.compat_flags == self.compat_flags,
            builder.payload_length == self.payload_length,
            builder.system_id == self.system_id,
            builder.component_id == self.component_id,
            builder.message_id == self.message_id,
    {
        HeaderBuilder {
            mavlink_version: self.mavlink_version,
            payload_length: self.payload_length,
            incompat_flags: self.incompat_flags,
            compat_flags: self.compat_flags,
            sequence: Sequenced(sequence),
            system_id: self.system_id,
            component_id: self.component_id,
            message_id: self.message_id,
        }
    }

    /// Sets the system identifier.
    pub fn system_id(self, system_id: SystemId) -> (builder: HeaderBuilder<
        V,
        L,
        Sq,
        HasSysId,
        C,
        M,
    >)
        ensures
            builder.system_id.0 == system_id,
            builder.incompat_flags == self.incompat_flags,
            builder.compat_flags == self.compat_flags,
            builder.payload_length == self.payload_length,
            builder.sequence == self.sequence,
            builder.component_id == self.component_id,
            builder.message_id == self.message_id,
    {
        HeaderBuilder {
            mavlink_version: self.mavlink_version,
            payload_length: self.payload_length,
            incompat_flags: self.incompat_flags,
            compat_flags: self.compat_flags,
            sequence: self.sequence,
            system_id: HasSysId(system_id),
            component_id: self.component_id,
            message_id: self.message_id,
        }
    }

    /// Sets the component identifier.
    pub fn component_id(self, component_id: ComponentId) -> (builder: HeaderBuilder<
        V,
        L,
        Sq,
        S,
        HasCompId,
        M,
    >)
        ensures
            builder.component_id.0 == component_id,
            builder.incompat_flags == self.incompat_flags,
            builder.compat_flags == self.compat_flags,
            builder.payload_length == self.payload_length,
            builder.sequence == self.sequence,
            builder.system_id == self.system_id,
            builder.message_id == self.message_id,
    {
        HeaderBuilder {
            mavlink_version: self.mavlink_version,
            payload_length: self.payload_length,
            incompat_flags: self.incompat_flags,
            compat_flags: self.compat_flags,
            sequence: self.sequence,
            system_id: self.system_id,
            component_id: HasCompId(component_id),
            message_id: self.message_id,
        }
    }

    /// Sets the message identifier.
    pub fn message_id(self, message_id: MessageId) -> (builder: HeaderBuilder<
        V,
        L,
        Sq,
        S,
        C,
        HasMsgId,
    >)
        ensures
            builder.message_id.0 == message_id,
            builder.incompat_flags == self.incompat_flags,
            builder.compat_flags == self.compat_flags,
            builder.payload_length == self.payload_length,
            builder.sequence == self.sequence,
            builder.system_id == self.system_id,
            builder.component_id == self.component_id,
    {
        HeaderBuilder {
            mavlink_version: self.mavlink_version,
            payload_length: self.payload_length,
            incompat_flags: self.incompat_flags,
            compat_flags: self.compat_flags,
            sequence: self.sequence,
            system_id: self.system_id,
            component_id: self.component_id,
            message_id: HasMsgId(message_id),
        }
    }

    /// Makes the header one of `MAVLink 2` whose only incompatibility flag is the "signed" flag,
    /// set to `flag`, and whose compatibility flags are empty.
    fn set_is_signed_no_v2(self, flag: bool) -> (builder: HeaderBuilder<V2, L, Sq, S, C, M>)
        ensures
            builder.incompat_flags matches Some(flags) && flags@ == with_signed_bit(0, flag),
            builder.compat_flags matches Some(flags) && flags@ == 0,
            builder.payload_length == self.payload_length,
            builder.sequence == self.sequence,
            builder.system_id == self.system_id,
            builder.component_id == self.component_id,
            builder.message_id == self.message_id,
    {
        let flags = IncompatFlags::default().with_signed(flag);
        HeaderBuilder {
            mavlink_version: PhantomData,
            payload_length: self.payload_length,
            incompat_flags: Some(flags),
            compat_flags: Some(CompatFlags::default()),
            sequence: self.sequence,
            system_id: self.system_id,
            component_id: self.component_id,
            message_id: self.message_id,
        }
    }
}

impl<L: IsPayloadLen, Sq: IsSequenced, S: IsSysId, C: IsCompId, M: IsMsgId> HeaderBuilder<
    Versionless,
    L,
    Sq,
    S,
    C,
    M,
> {
    /// Says whether the frame will be signed, which makes the header one of `MAVLink 2`.
    ///
    /// The flags set before are replaced: the "signed" flag is the only one that can be set
    /// afterwards.
    pub fn signed(self, flag: bool) -> (builder: HeaderBuilder<V2, L, Sq, S, C, M>)
        ensures
            builder.incompat_flags matches Some(flags) && flags@ == with_signed_bit(0, flag),
            builder.compat_flags matches Some(flags) && flags@ == 0,
            builder.payload_length == self.payload_length,
            builder.sequence == self.sequence,
            builder.system_id == self.system_id,
            builder.component_id == self.component_id,
            builder.message_id == self.message_id,
    {
        self.set_is_signed_no_v2(flag)
    }
}

impl<L: IsPayloadLen, Sq: IsSequenced, S: IsSysId, C: IsCompId, M: IsMsgId> HeaderBuilder<
    V1,
    L,
    Sq,
    S,
    C,
    M,
> {
    /// Says whether the frame will be signed, which makes the header one of `MAVLink 2`.
    pub fn signed(self, flag: bool) -> (builder: HeaderBuilder<V2, L, Sq, S, C, M>)
        ensures
            builder.incompat_flags matches Some(flags) && flags@ == with_signed_bit(0, flag),
            builder.compat_flags matches Some(flags) && flags@ == 0,
            builder.payload_length == self.payload_length,
            builder.sequence == self.sequence,
            builder.system_id == self.system_id,
            builder.component_id == self.component_id,
            builder.message_id == self.message_id,
    {
        self.set_is_signed_no_v2(flag)
    }
}

impl<L: IsPayloadLen, Sq: IsSequenced, S: IsSysId, C: IsCompId, M: IsMsgId> HeaderBuilder<
    V2,
    L,
    Sq,
    S,
    C,
    M,
> {
    /// Says whether the frame will be signed: sets or clears the "signed" flag and keeps every
    /// other flag.
    pub fn signed(self, flag: bool) -> (builder: HeaderBuilder<V2, L, Sq, S, C, M>)
        ensures
            builder.incompat_flags matches Some(flags) && flags@ == with_signed_bit(
                incompat_bits(self.incompat_flags),
                flag,
            ),
            builder.compat_flags == self.compat_flags,
            builder.payload_length == self.payload_length,
            builder.sequence == self.sequence,
            builder.system_id == self.system_id,
            builder.component_id == self.component_id,
            builder.message_id == self.message_id,
    {
        let flags = match self.incompat_flags {
            Some(flags) => flags,
            None => IncompatFlags::default(),
        };
        HeaderBuilder {
            mavlink_version: PhantomData,
            payload_length: self.payload_length,
            incompat_flags: Some(flags.with_signed(flag)),
            compat_flags: self.compat_flags,
            sequence: self.sequence,
            system_id: self.system_id,
            component_id: self.component_id,
            message_id: self.message_id,
        }
    }
}

impl<V: Versioned> HeaderBuilder<V, HasPayloadLen, Sequenced, HasSysId, HasCompId, HasMsgId> {
    /// What the header built from this builder says.
    pub open spec fn spec_build(&self) -> HeaderView {
        HeaderView {
            version: V::bound()->0,
            payload_length: self.payload_length.0,
            incompat_flags: incompat_bits(self.incompat_flags),
            compat_flags: compat_bits(self.compat_flags),
            sequence: self.sequence.0,
            system_id: self.system_id.0,
            component_id: self.component_id.0,
            message_id: self.message_id.0,
        }
    }

    /// The header with the fields of this builder.
    pub fn build(&self) -> (header: Header<V>)
        ensures
            header@ == self.spec_build(),
            header.is_bound(),
            V::bound() == Some(header@.version),
    {
        let incompat_flags = match self.incompat_flags {
            Some(flags) => flags,
            None => IncompatFlags::default(),
        };
        let compat_flags = match self.compat_flags {
            Some(flags) => flags,
            None => CompatFlags::default(),
        };
        Header::from_parts(
            V::version(),
            self.payload_length.0,
            incompat_flags,
            compat_flags,
            self.sequence.0,
            self.system_id.0,
            self.component_id.0,
            self.message_id.0,
        )
    }
}

} // verus!
