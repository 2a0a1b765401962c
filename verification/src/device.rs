//! A MAVLink device of one protocol version.

use vstd::prelude::*;
use core::marker::PhantomData;
use crate::endpoint::MavLinkId;
use crate::marker::{Versioned, V1, V2};
use crate::sequencer::{advanced, Sequencer};
use crate::types::{ComponentId, Sequence, SystemId};

verus! {

/// A device that has an identity and counts the frames it sends.
#[derive(Debug)]
pub struct Device<V: Versioned> {
    id: MavLinkId,
    sequencer: Sequencer,
    _version: PhantomData<V>,
}

impl Device<V2> {
    /// A device with the given identity whose sequence starts from zero.
    pub fn new<V: Versioned>(id: MavLinkId) -> (device: Device<V>)
        ensures
            device.spec_id() == id,
            device.spec_sequence() == 0,
    {
        Device { id, sequencer: Sequencer::new(), _version: PhantomData }
    }

    /// A `MAVLink 1` device.
    pub fn v1(id: MavLinkId) -> (device: Device<V1>)
        ensures
            device.spec_id() == id,
            device.spec_sequence() == 0,
    {
        Device::new::<V1>(id)
    }

    /// A `MAVLink 2` device.
    pub fn v2(id: MavLinkId) -> (device: Self)
        ensures
            device.spec_id() == id,
            device.spec_sequence() == 0,
    {
        Device::new::<V2>(id)
    }
}

impl<V: Versioned> Device<V> {
    /// The identity.
    pub closed spec fn spec_id(&self) -> MavLinkId {
        self.id
    }

    /// The sequence number of the next frame.
    pub closed spec fn spec_sequence(&self) -> Sequence {
        self.sequencer@
    }

    /// The identity.
    pub fn id(&self) -> (id: MavLinkId)
        ensures
            id == self.spec_id(),
    {
        self.id
    }

    /// Identifier of the system.
    pub fn system_id(&self) -> (id: SystemId)
        ensures
            id == self.spec_id().system,
    {
        self.id.system
    }

    /// Identifier of the component.
    pub fn component_id(&self) -> (id: ComponentId)
        ensures
            id == self.spec_id().component,
    {
        self.id.component
    }

    /// Hands out the sequence number of the next frame and moves on by one.
    pub fn next_sequence(&mut self) -> (sequence: Sequence)
        ensures
            sequence == old(self).spec_sequence(),
            final(self).spec_sequence() == advanced(old(self).spec_sequence(), 1),
            final(self).spec_id() == old(self).spec_id(),
    {
        self.sequencer.next()
    }

    /// The sequencer.
    pub fn sequencer(&self) -> (sequencer: &Sequencer)
        ensures
            sequencer@ == self.spec_sequence(),
    {
        &self.sequencer
    }
}

} // verus!
