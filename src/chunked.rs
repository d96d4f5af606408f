//! Bounded, chunked streaming of a region of a resource.
use vstd::prelude::*;

verus! {

/// Largest read asked for at once.
pub const CHUNK_SIZE: u64 = 65536;

/// Why a stream stopped early.
#[derive(Clone, Copy, Debug, PartialEq, Eq, Structural)]
pub enum ReadError {
    /// The resource ended before the region did.
    UnexpectedEof,
}

/// Progress through the region `[start, start + size)`: `counter` bytes have
/// been delivered and the next read starts at `offset`.
#[derive(Clone, Copy, Debug)]
pub struct ChunkedReadFile {
    size: u64,
    offset: u64,
    counter: u64,
}

pub open spec fn min_u64_spec(a: u64, b: u64) -> u64 {
    if a <= b {
        a
    } else {
        b
    }
}

impl ChunkedReadFile {
    pub closed spec fn size_spec(&self) -> nat {
        self.size as nat
    }

    pub closed spec fn counter_spec(&self) -> nat {
        self.counter as nat
    }

    /// First byte of the region.
    pub closed spec fn start_spec(&self) -> nat {
        (self.offset - self.counter) as nat
    }

    pub closed spec fn wf(&self) -> bool {
        &&& self.counter <= self.size
        &&& self.counter <= self.offset
        &&& self.offset - self.counter + self.size <= u64::MAX
    }

    /// Streams `size` bytes from `offset`.
    pub fn new(offset: u64, size: u64) -> (r: ChunkedReadFile)
        requires
            offset + size <= u64::MAX,
        ensures
            r.wf(),
            r.start_spec() == offset,
            r.size_spec() == size,
            r.counter_spec() == 0,
    {
        ChunkedReadFile { size, offset, counter: 0 }
    }

    /// Whether the whole region has been delivered.
    pub fn is_done(&self) -> (r: bool)
        requires
            self.wf(),
        ensures
            r == (self.counter_spec() == self.size_spec()),
    {
        self.counter == self.size
    }

    /// Position and largest length of the next read, or `None` once done; a read
    /// never reaches past the end of the region.
    pub fn next_read(&self) -> (r: Option<(u64, u64)>)
        requires
            self.wf(),
        ensures
            self.counter_spec() == self.size_spec() ==> r is None,
            self.counter_spec() < self.size_spec() ==> (r matches Some((pos, max)) && pos
                == self.start_spec() + self.counter_spec() && max == min_u64_spec(
                (self.size_spec() - self.counter_spec()) as u64,
                CHUNK_SIZE,
            )),
            r matches Some((pos, max)) ==> (max >= 1 && pos + max <= self.start_spec()
                + self.size_spec()),
    {
        if self.counter >= self.size {
            return None;
        }
        let left = self.size - self.counter;
        let max = if left <= CHUNK_SIZE {
            left
        } else {
            CHUNK_SIZE
        };
        Some((self.offset, max))
    }

    /// Records that `n` bytes were read; reading nothing before the region ends
    /// is an error and changes nothing.
    pub fn advance(&mut self, n: u64) -> (r: Result<(), ReadError>)
        requires
            old(self).wf(),
            old(self).counter_spec() + n <= old(self).size_spec(),
        ensures
            final(self).wf(),
            final(self).start_spec() == old(self).start_spec(),
            final(self).size_spec() == old(self).size_spec(),
            n == 0 ==> (r == Err::<(), ReadError>(ReadError::UnexpectedEof)
                && final(self).counter_spec() == old(self).counter_spec()),
            n > 0 ==> (r is Ok && final(self).counter_spec() == old(self).counter_spec() + n),
    {
        if n == 0 {
            return Err(ReadError::UnexpectedEof);
        }
        self.offset = self.offset + n;
        self.counter = self.counter + n;
        Ok(())
    }
}

fn copy_out(out: &mut Vec<u8>, content: &[u8], pos: u64, n: u64)
    requires
        pos + n <= content@.len(),
    ensures
        final(out)@ == old(out)@ + content@.subrange(pos as int, pos + n),
{
    let total = content.len();
    let mut i: u64 = 0;
    while i < n
        invariant
            i <= n,
            total == content@.len(),
            pos + n <= content@.len(),
            out@ == old(out)@ + content@.subrange(pos as int, pos + i),
        decreases n - i,
    {
        out.push(content[(pos + i) as usize]);
        i = i + 1;
        proof {
            assert(out@ =~= old(out)@ + content@.subrange(pos as int, pos + i));
        }
    }
}

/// The bytes a body `File { offset, length }` streams from an in-memory
/// resource, read chunk by chunk.
pub fn read_region(content: &[u8], offset: u64, length: u64) -> (r: Vec<u8>)
    requires
        offset + length <= content@.len(),
    ensures
        r@ == content@.subrange(offset as int, offset + length),
{
    let total = content.len();
    assert(offset + length <= total);
    let mut reader = ChunkedReadFile::new(offset, length);
    let mut out: Vec<u8> = Vec::new();
    while !reader.is_done()
        invariant
            reader.wf(),
            reader.start_spec() == offset,
            reader.size_spec() == length,
            offset + length <= content@.len(),
            out@ == content@.subrange(offset as int, offset + reader.counter_spec()),
        decreases length - reader.counter_spec(),
    {
        match reader.next_read() {
            None => {},
            Some((pos, max)) => {
                copy_out(&mut out, content, pos, max);
                proof {
                    assert(out@ =~= content@.subrange(
                        offset as int,
                        offset + reader.counter_spec() + max,
                    ));
                }
                let _ = reader.advance(max);
            },
        }
    }
    out
}

} // verus!
