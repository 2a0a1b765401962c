//! Sends frames to a byte stream.

use vstd::prelude::*;
use core::marker::PhantomData;
use crate::error::{Error, FrameError, IoError, IoErrorKind};
use crate::frame::Frame;
use crate::io::Write;
use crate::marker::{MaybeVersioned, Versioned, Versionless};

verus! {

/// Sends frames of the protocol versions that `V` takes.
#[derive(Debug)]
pub struct Sender<W: Write, V: MaybeVersioned> {
    writer: W,
    _marker_version: PhantomData<V>,
}

impl<W: Write> Sender<W, Versionless> {
    /// A sender that writes to `writer`.
    pub fn new<V: MaybeVersioned>(writer: W) -> (sender: Sender<W, V>)
        ensures
            sender.spec_writer() == writer,
    {
        Sender { writer, _marker_version: PhantomData }
    }

    /// A sender of frames of both versions.
    pub fn versionless(writer: W) -> (sender: Self)
        ensures
            sender.spec_writer() == writer,
    {
        Sender::new(writer)
    }

    /// A sender of frames of one version.
    pub fn versioned<Version: Versioned>(writer: W, version: Version) -> (sender: Sender<
        W,
        Version,
    >)
        ensures
            sender.spec_writer() == writer,
    {
        Sender::new(writer)
    }
}

impl<W: Write, V: MaybeVersioned> Sender<W, V> {
    /// The writer.
    pub closed spec fn spec_writer(&self) -> W {
        self.writer
    }

    /// Writes a frame: the bytes of its header, then the bytes of its body. Says how many
    /// bytes it wrote.
    ///
    /// A frame bound to `V` has a version that `V` takes, so the only failures are those of the
    /// writer.
    pub fn send(&mut self, frame: &Frame<V>) -> (r: Result<usize, Error>)
        ensures
            r matches Ok(size) ==> size == frame@.wire_bytes().len(),
            r is Ok ==> final(self).spec_writer().written() == old(self).spec_writer().written()
                + frame@.wire_bytes(),
            r matches Err(e) ==> e is Io,
            final(self).spec_writer().reliable() == old(self).spec_writer().reliable(),
            old(self).spec_writer().reliable() ==> (r is Ok <==> frame@.wire_bytes().len()
                <= old(self).spec_writer().room()),
            old(self).spec_writer().reliable() && r is Ok ==> final(self).spec_writer().room()
                == old(self).spec_writer().room() - frame@.wire_bytes().len(),
            old(self).spec_writer().reliable() ==> (r matches Err(e) ==> e == Error::Io(
                IoError::spec_new(IoErrorKind::UnexpectedEof),
            )),
    {
        match V::expect(frame.version()) {
            Ok(_) => {},
            Err(e) => {
                return Err(Error::Frame(FrameError::Version(e)));
            },
        }
        frame.send(&mut self.writer)
    }

    /// Hands everything written so far on to where it goes: after a success, all that was
    /// written is there. A reliable writer does not fail at that.
    pub fn flush(&mut self) -> (r: Result<(), Error>)
        ensures
            final(self).spec_writer().written() == old(self).spec_writer().written(),
            final(self).spec_writer().reliable() == old(self).spec_writer().reliable(),
            old(self).spec_writer().reliable() ==> final(self).spec_writer().room()
                == old(self).spec_writer().room(),
            r is Ok ==> final(self).spec_writer().flushed() == final(self).spec_writer().written(),
            old(self).spec_writer().reliable() ==> r is Ok,
            r matches Err(e) ==> e is Io,
    {
        match self.writer.flush() {
            Ok(_) => Ok(()),
            Err(e) => Err(Error::Io(e)),
        }
    }

    /// Gives the writer back.
    pub fn extract(self) -> (writer: W)
        ensures
            writer == self.spec_writer(),
    {
        self.writer
    }
}

} // verus!
