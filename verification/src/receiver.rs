//! Receives frames from a byte stream.

use vstd::prelude::*;
use core::marker::PhantomData;
use crate::error::{Error, IoError, IoErrorKind};
use crate::frame::{scan_frame, Frame};
use crate::io::Read;
use crate::marker::{MaybeVersioned, Versioned, Versionless};

verus! {

/// Receives frames of the protocol versions that `V` takes.
///
/// Frames of another version are junk to the receiver: it skips them like anything else that
/// does not start a packet.
#[derive(Debug)]
pub struct Receiver<R: Read, V: MaybeVersioned> {
    reader: R,
    _marker_version: PhantomData<V>,
}

impl<R: Read> Receiver<R, Versionless> {
    /// A receiver that reads from `reader`.
    pub fn new<V: MaybeVersioned>(reader: R) -> (receiver: Receiver<R, V>)
        ensures
            receiver.spec_reader() == reader,
    {
        Receiver { reader, _marker_version: PhantomData }
    }

    /// A receiver of frames of both versions.
    pub fn versionless(reader: R) -> (receiver: Self)
        ensures
            receiver.spec_reader() == reader,
    {
        Receiver::new(reader)
    }

    /// A receiver of frames of one version.
    pub fn versioned<Version: Versioned>(reader: R, version: Version) -> (receiver: Receiver<
        R,
        Version,
    >)
        ensures
            receiver.spec_reader() == reader,
    {
        Receiver::new(reader)
    }
}

impl<R: Read, V: MaybeVersioned> Receiver<R, V> {
    /// The reader.
    pub closed spec fn spec_reader(&self) -> R {
        self.reader
    }

    /// Reads the next frame, skipping what does not start a packet of a version that `V`
    /// takes.
    ///
    /// On success the frame is the one that [`scan_frame`] finds in the stream, and the stream
    /// stands behind it. A reliable reader fails exactly if the stream ends before a frame is
    /// complete, and then with `UnexpectedEof`.
    pub fn recv(&mut self) -> (r: Result<Frame<V>, Error>)
        ensures
            final(self).spec_reader().reliable() == old(self).spec_reader().reliable(),
            r matches Ok(frame) ==> scan_frame(V::bound(), old(self).spec_reader().stream())
                matches Some(found) && frame@.is_parse_of(found.0, found.1)
                && final(self).spec_reader().stream() == found.2 && frame.is_bound(),
            old(self).spec_reader().reliable() ==> (r is Ok <==> scan_frame(
                V::bound(),
                old(self).spec_reader().stream(),
            ) is Some),
            r matches Err(e) ==> e is Io,
            old(self).spec_reader().reliable() ==> (r matches Err(e) ==> e == Error::Io(
                IoError::spec_new(IoErrorKind::UnexpectedEof),
            )),
    {
        Frame::<V>::recv(&mut self.reader)
    }

    /// Gives the reader back.
    pub fn extract(self) -> (reader: R)
        ensures
            reader == self.spec_reader(),
    {
        self.reader
    }
}

} // verus!
