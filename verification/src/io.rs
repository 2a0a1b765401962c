//! Byte streams that frames are read from and written to.

use vstd::prelude::*;
use crate::error::{IoError, IoErrorKind};

verus! {

/// A source of bytes.
///
/// A reader is described by the bytes it will still deliver. Reading takes bytes from their
/// front.
pub trait Read {
    /// The bytes that are still to be read.
    ///
    /// A reader in verified code says what they are. The default says nothing.
    open spec fn stream(&self) -> Seq<u8> {
        arbitrary()
    }

    /// Whether reading fails only when too few bytes are left, and then takes nothing.
    open spec fn reliable(&self) -> bool {
        false
    }

    /// Fills `buf` with the next bytes of the stream.
    ///
    /// On success the bytes are taken from the stream. On failure nothing is known about what
    /// was taken, unless the reader is a reliable one.
    fn read_exact(&mut self, buf: &mut [u8]) -> (r: Result<(), IoError>)
        ensures
            final(buf)@.len() == old(buf)@.len(),
            r is Ok ==> old(self).stream().len() >= old(buf)@.len(),
            r is Ok ==> final(buf)@ == old(self).stream().take(old(buf)@.len() as int),
            r is Ok ==> final(self).stream() == old(self).stream().skip(old(buf)@.len() as int),
            final(self).reliable() == old(self).reliable(),
            old(self).reliable() ==> (r is Ok <==> old(self).stream().len() >= old(buf)@.len()),
            old(self).reliable() ==> (r matches Err(e) ==> e.spec_kind()
                == IoErrorKind::UnexpectedEof && final(self).stream() == old(self).stream()),
    ;
}

/// A sink of bytes.
///
/// A writer is described by the bytes it has taken so far and by those of them that went on
/// to where they go.
pub trait Write {
    /// The bytes written so far.
    ///
    /// A writer in verified code says what they are. The default says nothing.
    open spec fn written(&self) -> Seq<u8> {
        arbitrary()
    }

    /// The bytes that went on to where they go.
    ///
    /// A writer in verified code says what they are. The default says nothing.
    open spec fn flushed(&self) -> Seq<u8> {
        arbitrary()
    }

    /// Whether writing fails only when the writer has no room for what it is given, and then
    /// writes nothing.
    open spec fn reliable(&self) -> bool {
        false
    }

    /// Number of bytes that a reliable writer still has room for.
    open spec fn room(&self) -> nat {
        arbitrary()
    }

    /// Writes all of `buf`.
    ///
    /// On failure nothing is known about what was written, unless the writer is a reliable
    /// one.
    fn write_all(&mut self, buf: &[u8]) -> (r: Result<(), IoError>)
        ensures
            r is Ok ==> final(self).written() == old(self).written() + buf@,
            final(self).reliable() == old(self).reliable(),
            old(self).reliable() ==> (r is Ok <==> buf@.len() <= old(self).room()),
            old(self).reliable() && r is Ok ==> final(self).room() == old(self).room()
                - buf@.len(),
            old(self).reliable() ==> (r matches Err(e) ==> e.spec_kind()
                == IoErrorKind::UnexpectedEof),
            old(self).reliable() && r is Err ==> final(self).written() == old(self).written()
                && final(self).room() == old(self).room(),
    ;

    /// Hands everything written so far on to where it goes. A reliable writer does not fail
    /// at that.
    fn flush(&mut self) -> (r: Result<(), IoError>)
        ensures
            final(self).written() == old(self).written(),
            final(self).reliable() == old(self).reliable(),
            old(self).reliable() ==> final(self).room() == old(self).room(),
            r is Ok ==> final(self).flushed() == final(self).written(),
            old(self).reliable() ==> r is Ok,
    ;
}

/// Reads from a slice of bytes.
#[derive(Debug)]
pub struct SliceReader<'a> {
    content: &'a [u8],
    pos: usize,
}

impl<'a> SliceReader<'a> {
    #[verifier::type_invariant]
    closed spec fn within_content(self) -> bool {
        self.pos <= self.content@.len()
    }

    /// The whole slice.
    pub closed spec fn spec_content(&self) -> Seq<u8> {
        self.content@
    }

    /// Number of bytes read so far.
    pub closed spec fn spec_pos(&self) -> nat {
        self.pos as nat
    }

    /// Whether the position lies within the slice.
    pub open spec fn wf(&self) -> bool {
        self.spec_pos() <= self.spec_content().len()
    }

    /// A reader at the start of `content`.
    pub fn new(content: &'a [u8]) -> (reader: SliceReader<'a>)
        ensures
            reader.wf(),
            reader.spec_content() == content@,
            reader.spec_pos() == 0,
    {
        SliceReader { content, pos: 0 }
    }

    /// The whole slice.
    pub fn content(&self) -> (content: &[u8])
        ensures
            content@ == self.spec_content(),
    {
        self.content
    }

    /// Number of bytes read so far.
    pub fn pos(&self) -> (pos: usize)
        ensures
            pos == self.spec_pos(),
            self.wf(),
    {
        proof {
            use_type_invariant(self);
        }
        self.pos
    }

    /// Number of bytes that are still to be read.
    pub fn num_remaining_bytes(&self) -> (count: usize)
        ensures
            count == self.spec_content().len() - self.spec_pos(),
            self.wf(),
    {
        proof {
            use_type_invariant(self);
        }
        self.content.len() - self.pos
    }
}

impl<'a> Read for SliceReader<'a> {
    closed spec fn stream(&self) -> Seq<u8> {
        self.content@.skip(self.pos as int)
    }

    open spec fn reliable(&self) -> bool {
        true
    }

    /// Fills `buf` with the next bytes of the slice, or fails with `UnexpectedEof` and reads
    /// nothing if the slice has fewer bytes left than `buf` takes.
    fn read_exact(&mut self, buf: &mut [u8]) -> (r: Result<(), IoError>)
        ensures
            final(self).spec_content() == old(self).spec_content(),
            r is Ok ==> final(self).spec_pos() == old(self).spec_pos() + old(buf)@.len(),
            r is Err ==> final(self).spec_pos() == old(self).spec_pos() && final(buf)@ == old(buf)@,
    {
        proof {
            use_type_invariant(&*self);
        }
        let count: usize = buf.len();
        if self.content.len() - self.pos < count {
            return Err(IoError::new(IoErrorKind::UnexpectedEof));
        }
        let start: usize = self.pos;
        let content = self.content;
        let mut i: usize = 0;
        while i < count
            invariant
                i <= count,
                count == buf@.len(),
                start + count <= content@.len() <= usize::MAX,
                forall|k: int| 0 <= k < i ==> buf@[k] == content@[start + k],
            decreases count - i,
        {
            buf[i] = content[start + i];
            i = i + 1;
        }
        self.pos = start + count;
        proof {
            assert(buf@ =~= content@.skip(start as int).take(count as int));
            assert(content@.skip((start + count) as int) =~= content@.skip(start as int).skip(
                count as int,
            ));
        }
        Ok(())
    }
}

/// The stream of a slice reader is what lies between its position and the end of its slice.
pub proof fn lemma_slice_reader_stream(reader: SliceReader)
    requires
        reader.wf(),
    ensures
        reader.stream() == reader.spec_content().skip(reader.spec_pos() as int),
        reader.reliable(),
{
}

/// Writes into a slice of bytes of a fixed length.
#[derive(Debug)]
pub struct SliceWriter<'a> {
    content: &'a mut [u8],
    pos: usize,
}

impl<'a> SliceWriter<'a> {
    #[verifier::type_invariant]
    closed spec fn within_content(self) -> bool {
        self.pos <= self.content@.len()
    }

    /// The whole slice.
    pub closed spec fn spec_content(&self) -> Seq<u8> {
        self.content@
    }

    /// Number of bytes written so far.
    pub closed spec fn spec_pos(&self) -> nat {
        self.pos as nat
    }

    /// Whether the position lies within the slice.
    pub open spec fn wf(&self) -> bool {
        self.spec_pos() <= self.spec_content().len()
    }

    /// A writer at the start of `content`.
    pub fn new(content: &'a mut [u8]) -> (writer: SliceWriter<'a>)
        ensures
            writer.wf(),
            writer.spec_content() == old(content)@,
            writer.spec_pos() == 0,
    {
        SliceWriter { content, pos: 0 }
    }

    /// The whole slice.
    pub fn content(&self) -> (content: &[u8])
        ensures
            content@ == self.spec_content(),
    {
        self.content
    }

    /// Number of bytes written so far.
    pub fn pos(&self) -> (pos: usize)
        ensures
            pos == self.spec_pos(),
            self.wf(),
    {
        proof {
            use_type_invariant(self);
        }
        self.pos
    }

    /// Number of bytes that can still be written.
    pub fn num_remaining_bytes(&self) -> (count: usize)
        ensures
            count == self.spec_content().len() - self.spec_pos(),
            self.wf(),
    {
        proof {
            use_type_invariant(self);
        }
        self.content.len() - self.pos
    }
}

impl<'a> Write for SliceWriter<'a> {
    closed spec fn written(&self) -> Seq<u8> {
        self.content@.take(self.pos as int)
    }

    /// What is written is in the slice at once.
    closed spec fn flushed(&self) -> Seq<u8> {
        self.content@.take(self.pos as int)
    }

    open spec fn reliable(&self) -> bool {
        true
    }

    closed spec fn room(&self) -> nat {
        (self.content@.len() - self.pos) as nat
    }

    /// Writes `buf` behind what was written before, or fails with `UnexpectedEof` and writes
    /// nothing if the slice has less room left than `buf` needs.
    fn write_all(&mut self, buf: &[u8]) -> (r: Result<(), IoError>)
        ensures
            r is Ok <==> old(self).spec_content().len() - old(self).spec_pos() >= buf@.len(),
            r is Ok ==> final(self).spec_pos() == old(self).spec_pos() + buf@.len(),
            r is Ok ==> final(self).spec_content() == old(self).spec_content().take(
                old(self).spec_pos() as int,
            ) + buf@ + old(self).spec_content().skip(
                (old(self).spec_pos() + buf@.len()) as int,
            ),
            final(self).spec_content().len() == old(self).spec_content().len(),
            r matches Err(e) ==> e.spec_kind() == IoErrorKind::UnexpectedEof,
            r is Err ==> final(self).spec_pos() == old(self).spec_pos(),
            r is Err ==> final(self).spec_content() == old(self).spec_content(),
    {
        proof {
            use_type_invariant(&*self);
        }
        let count: usize = buf.len();
        if self.content.len() - self.pos < count {
            return Err(IoError::new(IoErrorKind::UnexpectedEof));
        }
        let start: usize = self.pos;
        let ghost before = self.content@;
        let mut i: usize = 0;
        while i < count
            invariant
                i <= count,
                count == buf@.len(),
                self.pos == start,
                self.content@.len() == before.len(),
                start + count <= self.content@.len() <= usize::MAX,
                forall|k: int|
                    0 <= k < start || start + i <= k < before.len() ==> self.content@[k]
                        == before[k],
                forall|k: int| 0 <= k < i ==> self.content@[start + k] == buf@[k],
            decreases count - i,
        {
            self.content[start + i] = buf[i];
            i = i + 1;
        }
        self.pos = start + count;
        proof {
            assert(self.content@.take((start + count) as int) =~= before.take(start as int)
                + buf@);
            assert(self.content@ =~= before.take(start as int) + buf@ + before.skip(
                start + count,
            ));
        }
        Ok(())
    }

    /// Does nothing: what was written is in the slice already.
    fn flush(&mut self) -> (r: Result<(), IoError>)
        ensures
            r is Ok,
            *final(self) == *old(self),
    {
        Ok(())
    }
}

/// What a slice writer has written is what lies between the start of its slice and its
/// position, all of it is where it goes, and the room left is what lies behind the position.
pub proof fn lemma_slice_writer_written(writer: SliceWriter)
    requires
        writer.wf(),
    ensures
        writer.written() == writer.spec_content().take(writer.spec_pos() as int),
        writer.flushed() == writer.written(),
        writer.reliable(),
        writer.room() == writer.spec_content().len() - writer.spec_pos(),
{
}

} // verus!
