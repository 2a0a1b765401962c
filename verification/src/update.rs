//! Changing frames in place.

use vstd::prelude::*;
use crate::frame::Frame;
use crate::header::Header;
use crate::marker::MaybeVersioned;
use crate::signature::Signature;
use crate::types::{Checksum, CrcExtra};

verus! {

/// Changes the payload, the checksum and the signature of a frame, with nothing to keep them
/// in agreement with each other.
pub trait UpdateFrameUnsafe<V: MaybeVersioned> {
    /// Changes the parts of a frame in place. The header is there to look at.
    fn update_unsafe(
        &mut self,
        header: Header<V>,
        payload: &mut [u8],
        checksum: &mut Checksum,
        signature: &mut Option<Signature>,
    )
        ensures
            final(payload)@.len() == old(payload)@.len(),
    ;
}

/// Changes frames and puts them in order again afterwards.
pub trait UpdateFrame<V: MaybeVersioned>: UpdateFrameUnsafe<V> + Sized {
    /// Changes a frame and computes its checksum anew, with `crc_extra` as the salt of its
    /// message.
    fn update(&mut self, frame: &mut Frame<V>, crc_extra: CrcExtra)
        ensures
            final(frame)@.is_update_of(old(frame)@),
            final(frame)@.checksum == final(frame)@.crc(crc_extra),
            old(frame)@.wf() ==> final(frame)@.wf(),
    {
        frame.update_with(self);
        frame.recalculate_crc(crc_extra);
    }

    /// Changes a frame and leaves the checksum as the change left it.
    ///
    /// Afterwards a `MAVLink 1` frame has no signature, and the "signed" flag of a `MAVLink 2`
    /// frame says whether it has one.
    fn update_unchecked(&mut self, frame: &mut Frame<V>)
        ensures
            final(frame)@.is_update_of(old(frame)@),
            old(frame)@.wf() ==> final(frame)@.wf(),
    {
        frame.update_with(self);
    }
}

/// Scrambles the parts of a frame in place.
pub trait Scramble<V: MaybeVersioned> {
    /// Scrambles payload, checksum and signature. The header is there to look at.
    fn scramble(
        &mut self,
        header: Header<V>,
        payload: &mut [u8],
        checksum: &mut Checksum,
        signature: &mut Option<Signature>,
    )
        ensures
            final(payload)@.len() == old(payload)@.len(),
    ;
}

/// Takes over a value, after a check that it can be taken over.
pub trait TryUpdateFrom<T>: Sized {
    /// Why a value cannot be taken over.
    type Error;

    /// Whether `value` can be taken over, and why not if it cannot.
    ///
    /// An implementor in verified code says what this and the next one are. The defaults say
    /// nothing.
    open spec fn spec_check(&self, value: &T) -> Result<(), Self::Error> {
        arbitrary()
    }

    /// What becomes of `self` when it takes over `value`.
    open spec fn spec_updated(self, value: T) -> Self {
        arbitrary()
    }

    /// Takes over `value` if the check lets it pass, and changes nothing if not.
    fn try_update_from(&mut self, value: T) -> (r: Result<(), Self::Error>)
        ensures
            r == old(self).spec_check(&value),
            r is Ok ==> *final(self) == (*old(self)).spec_updated(value),
            r is Err ==> *final(self) == *old(self),
    {
        match self.check_try_update_from(&value) {
            Ok(passed) => {
                self.update_from_unchecked(value);
                Ok(passed)
            },
            Err(e) => Err(e),
        }
    }

    /// Checks whether `value` can be taken over.
    fn check_try_update_from(&self, value: &T) -> (r: Result<(), Self::Error>)
        ensures
            r == self.spec_check(value),
    ;

    /// Takes over `value` without a check.
    fn update_from_unchecked(&mut self, value: T)
        ensures
            *final(self) == (*old(self)).spec_updated(value),
    ;
}

} // verus!
