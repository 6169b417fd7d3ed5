//! A configuration stream held in memory.
use vstd::prelude::*;

use super::header::header_of;
use super::{is_page_of, open_failure, overwritten, smaller, Config, ConfigError, RWSeek, ROW_SIZE};

verus! {

/// A stream over a vector of bytes.
pub struct MemoryStream {
    /// The bytes of the stream.
    pub data: Vec<u8>,
    /// The position of the next read or write.
    pub pos: usize,
}

impl MemoryStream {
    /// A stream over `data`, positioned at its start.
    pub fn new(data: Vec<u8>) -> (stream: MemoryStream)
        ensures
            stream.data@ == data@,
            stream.pos == 0,
            stream.bytes() == data@,
            stream.position() == 0,
    {
        MemoryStream { data, pos: 0 }
    }
}

impl RWSeek for MemoryStream {
    open spec fn obeys_stream_model() -> bool {
        true
    }

    open spec fn bytes(&self) -> Seq<u8> {
        self.data@
    }

    open spec fn position(&self) -> nat {
        self.pos as nat
    }

    /// Reads as much as `buf` takes and the stream still holds. Fails only
    /// where the position lies beyond the end.
    fn read(&mut self, buf: &mut [u8]) -> (r: Result<usize, ()>)
        ensures
            r is Ok <==> old(self).pos <= old(self).data@.len(),
            r matches Ok(n) ==> n == smaller(
                old(buf)@.len() as int,
                old(self).data@.len() - old(self).pos,
            ),
            r is Err ==> *final(self) == *old(self) && final(buf)@ == old(buf)@,
    {
        if self.pos > self.data.len() {
            return Err(());
        }
        let ghost start = self.pos;
        let mut n: usize = 0;
        while n < buf.len() && self.pos < self.data.len()
            invariant
                self.data@ == old(self).data@,
                start == old(self).pos,
                self.pos == start + n,
                self.pos <= self.data@.len(),
                n <= buf@.len(),
                buf@.len() == old(buf)@.len(),
                forall|j: int| 0 <= j < n ==> buf@[j] == self.data@[start + j],
                forall|j: int| n <= j < buf@.len() ==> buf@[j] == old(buf)@[j],
            decreases buf@.len() - n,
        {
            buf[n] = self.data[self.pos];
            self.pos = self.pos + 1;
            n = n + 1;
        }
        assert(buf@ == self.data@.subrange(start as int, start + n) + old(buf)@.subrange(
            n as int,
            buf@.len() as int,
        ));
        Ok(n)
    }

    /// Writes all of `buf`, over the bytes at the position and past the end
    /// where they run out. Fails, and writes nothing, where the position lies
    /// beyond the end or the stream would outgrow its index range.
    fn write(&mut self, buf: &[u8]) -> (r: Result<usize, ()>)
        ensures
            r is Ok <==> old(self).pos <= old(self).data@.len() && old(self).pos + buf@.len()
                <= usize::MAX,
            r matches Ok(n) ==> n == buf@.len(),
            r is Err ==> *final(self) == *old(self),
    {
        if self.pos > self.data.len() || buf.len() > usize::MAX - self.pos {
            return Err(());
        }
        let ghost start = self.pos;
        let mut n: usize = 0;
        while n < buf.len()
            invariant
                start == old(self).pos,
                start <= old(self).data@.len(),
                start + buf@.len() <= usize::MAX,
                self.pos == start + n,
                self.pos <= self.data@.len(),
                n <= buf@.len(),
                self.data@ == overwritten(old(self).data@, start as int, buf@.subrange(0, n as int)),
            decreases buf@.len() - n,
        {
            if self.pos < self.data.len() {
                self.data[self.pos] = buf[n];
            } else {
                self.data.push(buf[n]);
            }
            self.pos = self.pos + 1;
            n = n + 1;
            assert(self.data@ == overwritten(
                old(self).data@,
                start as int,
                buf@.subrange(0, n as int),
            ));
        }
        Ok(n)
    }

    /// Moves to `pos`. Fails, and stays, where `pos` lies beyond the end.
    fn seek_from_start(&mut self, pos: u32) -> (r: Result<(), ()>)
        ensures
            r is Ok <==> pos <= old(self).data@.len(),
            r is Err ==> *final(self) == *old(self),
            final(self).data == old(self).data,
    {
        if pos as usize <= self.data.len() {
            self.pos = pos as usize;
            Ok(())
        } else {
            Err(())
        }
    }
}

/// Opens the configuration that `data` holds: succeeds exactly where the
/// bytes start with a valid header and hold all of page 0, and tells
/// otherwise what is wrong with them.
pub fn open_in_memory(data: Vec<u8>) -> (r: Result<Config<MemoryStream>, ConfigError>)
    ensures
        match open_failure(data@) {
            Some(e) => r == Err::<Config<MemoryStream>, ConfigError>(e),
            None => {
                &&& r matches Ok(config)
                &&& config.wf()
                &&& config.config_file.data@ == data@
                &&& config.header == header_of(data@.subrange(0, ROW_SIZE as int))
                &&& is_page_of(config.page, data@, config.header, 0)
            },
        },
{
    Config::new(MemoryStream::new(data))
}

} // verus!
