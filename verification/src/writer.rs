//! A byte sink that commits on flush.
use vstd::prelude::*;
use crate::error::BackendError;

verus! {

/// A two-stage byte sink over a buffer of the caller.
///
/// Writes are staged inside the writer. Only `flush` copies what is staged
/// into the caller's buffer, so the buffer never shows a write that was not
/// flushed. A flush leaves the staged bytes in place.
pub struct RbspyWriter<'a> {
    /// The staged bytes.
    pub data: Vec<u8>,
    /// The buffer of the caller.
    pub buffer: &'a mut Vec<u8>,
}

impl<'a> RbspyWriter<'a> {
    /// The bytes written so far.
    pub open spec fn staged(&self) -> Seq<u8> {
        self.data@
    }

    /// The bytes that the caller's buffer holds now.
    pub open spec fn committed(&self) -> Seq<u8> {
        (*self.buffer)@
    }

    /// A writer with nothing staged, committing into `buffer`.
    pub fn new(buffer: &'a mut Vec<u8>) -> (w: Self)
        ensures
            w.staged() == Seq::<u8>::empty(),
            w.committed() == old(buffer)@,
            *final(w.buffer) == *final(buffer),
    {
        RbspyWriter { data: Vec::new(), buffer }
    }

    /// Stages `buf` behind what is already staged and returns its length.
    /// The caller's buffer is not touched.
    pub fn write(&mut self, buf: &[u8]) -> (r: Result<usize, BackendError>)
        ensures
            r == Ok::<usize, BackendError>(buf@.len() as usize),
            final(self).staged() == old(self).staged() + buf@,
            final(self).committed() == old(self).committed(),
            *final(final(self).buffer) == *final(old(self).buffer),
    {
        self.data.extend_from_slice(buf);
        assert(self.data@ =~= old(self).data@ + buf@);
        Ok(buf.len())
    }

    /// Appends everything staged to the caller's buffer.
    pub fn flush(&mut self) -> (r: Result<(), BackendError>)
        ensures
            r is Ok,
            final(self).staged() == old(self).staged(),
            final(self).committed() == old(self).committed() + old(self).staged(),
            *final(final(self).buffer) == *final(old(self).buffer),
    {
        self.buffer.extend_from_slice(self.data.as_slice());
        assert((*self.buffer)@ =~= (*old(self).buffer)@ + self.data@);
        Ok(())
    }
}

} // verus!
