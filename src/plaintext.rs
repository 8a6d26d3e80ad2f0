//! A stream over a byte range of the archive image whose bytes are stored unchanged.

use vstd::prelude::*;
use crate::result::{IoFault, ZipError, ZipResult};

verus! {

/// A repositioning request, relative to the start, the end, or the current position.
#[derive(Clone, Copy, Debug, PartialEq, Eq, Structural)]
pub enum SeekPos {
    Start(u64),
    End(i64),
    Current(i64),
}

/// Copies `n` bytes of `src` from `from` to the front of `dst`.
pub fn copy_into(src: &[u8], from: u64, dst: &mut [u8], n: usize)
    requires
        from + n <= src@.len(),
        n <= old(dst)@.len(),
    ensures
        final(dst)@.len() == old(dst)@.len(),
        final(dst)@.subrange(0, n as int) == src@.subrange(from as int, from + n),
        final(dst)@.subrange(n as int, final(dst)@.len() as int) == old(dst)@.subrange(
            n as int,
            old(dst)@.len() as int,
        ),
{
    let mut i: usize = 0;
    while i < n
        invariant
            i <= n,
            from + n <= src@.len(),
            n <= dst@.len(),
            dst@.len() == old(dst)@.len(),
            forall|k: int| 0 <= k < i ==> dst@[k] == src@[from + k],
            forall|k: int| n <= k < dst@.len() ==> dst@[k] == old(dst)@[k],
        decreases n - i,
    {
        let _len = src.len();
        dst[i] = src[(from + i as u64) as usize];
        i = i + 1;
    }
    assert(final(dst)@.subrange(0, n as int) =~= src@.subrange(from as int, from + n));
    assert(final(dst)@.subrange(n as int, final(dst)@.len() as int) =~= old(dst)@.subrange(
        n as int,
        old(dst)@.len() as int,
    ));
}

/// The position that a request asks for, in a stream of `length` bytes now at `position`.
pub open spec fn seek_target(pos: SeekPos, length: int, position: int) -> int {
    match pos {
        SeekPos::Start(p) => p as int,
        SeekPos::End(off) => length + off,
        SeekPos::Current(off) => position + off,
    }
}

pub struct PlaintextReader<'a> {
    pub file: &'a [u8],
    pub start: u64,
    pub end: u64,
    pub position: u64,
}

impl<'a> PlaintextReader<'a> {
    /// The range is well ordered and the position lies within it.
    pub open spec fn wf(&self) -> bool {
        self.start <= self.end && self.position <= self.end - self.start
    }

    /// Length of the range.
    pub open spec fn length(&self) -> int {
        self.end - self.start
    }

    /// Bytes of the range not read yet.
    pub open spec fn remaining(&self) -> int {
        self.end - self.start - self.position
    }

    /// Bytes that the image holds from the current position on.
    pub open spec fn in_image(&self) -> int {
        let from = self.start + self.position;
        if from >= self.file@.len() {
            0
        } else {
            self.file@.len() - from
        }
    }

    /// How many bytes a read into a buffer of `buf_len` bytes delivers.
    pub open spec fn read_count(&self, buf_len: int) -> int {
        let a = if self.remaining() < buf_len { self.remaining() } else { buf_len };
        if a < self.in_image() { a } else { self.in_image() }
    }

    pub fn new(file: &'a [u8], start: u64, end: u64) -> (r: Self)
        requires
            start <= end,
        ensures
            r.wf(),
            r.file@ == file@,
            r.start == start,
            r.end == end,
            r.position == 0,
    {
        PlaintextReader { file, start, end, position: 0 }
    }

    /// Copies the next bytes of the range into `buf`, and returns how many; zero at the end of
    /// the range.
    pub fn read(&mut self, buf: &mut [u8]) -> (r: ZipResult<usize>)
        requires
            old(self).wf(),
        ensures
            final(self).wf(),
            final(self).file == old(self).file,
            final(self).start == old(self).start,
            final(self).end == old(self).end,
            r == Ok::<usize, ZipError>(old(self).read_count(old(buf)@.len() as int) as usize),
            final(self).position == old(self).position + old(self).read_count(old(buf)@.len() as int),
            final(buf)@.len() == old(buf)@.len(),
            forall|k: int|
                0 <= k < old(self).read_count(old(buf)@.len() as int) ==> final(buf)@[k]
                    == old(self).file@[old(self).start + old(self).position + k],
            forall|k: int|
                old(self).read_count(old(buf)@.len() as int) <= k < old(buf)@.len() ==> final(buf)@[k]
                    == old(buf)@[k],
    {
        if self.position >= self.end - self.start {
            return Ok(0);
        }
        let from = self.position + self.start;
        let len = self.end - self.start - self.position;
        let buf_len = buf.len();
        let limit: u64 = if len < buf_len as u64 { len } else { buf_len as u64 };
        let file_len = self.file.len() as u64;
        let in_image: u64 = if from >= file_len { 0 } else { file_len - from };
        let size: u64 = if limit < in_image { limit } else { in_image };
        if size > 0 {
            copy_into(self.file, from, buf, size as usize);
            assert(forall|k: int| 0 <= k < size ==> buf@.subrange(0, size as int)[k] == buf@[k]);
            assert(forall|k: int| size <= k < buf@.len() ==> buf@.subrange(size as int, buf@.len() as int)[k - size] == buf@[k]);
        }
        self.position = self.position + size;
        Ok(size as usize)
    }

    /// Moves the position within `[0, length]`; any other target fails and keeps the position.
    pub fn seek(&mut self, pos: SeekPos) -> (r: ZipResult<u64>)
        requires
            old(self).wf(),
        ensures
            final(self).wf(),
            final(self).file == old(self).file,
            final(self).start == old(self).start,
            final(self).end == old(self).end,
            ({
                let t = seek_target(pos, old(self).length(), old(self).position as int);
                &&& 0 <= t <= old(self).length() ==> r == Ok::<u64, ZipError>(t as u64)
                    && final(self).position == t
                &&& !(0 <= t <= old(self).length()) ==> r == Err::<u64, ZipError>(
                    ZipError::Io(IoFault::InvalidSeek),
                ) && final(self).position == old(self).position
            }),
    {
        let length = self.end - self.start;
        let target: Option<u64> = match pos {
            SeekPos::Start(p) => Some(p),
            SeekPos::End(off) => offset_position(length, off),
            SeekPos::Current(off) => offset_position(self.position, off),
        };
        if let Some(t) = target {
            if t <= length {
                self.position = t;
                return Ok(t);
            }
        }
        Err(ZipError::Io(IoFault::InvalidSeek))
    }

    /// Reads the rest of the range.
    pub fn read_to_end(&mut self) -> (r: ZipResult<Vec<u8>>)
        requires
            old(self).wf(),
        ensures
            final(self).wf(),
            final(self).file == old(self).file,
            final(self).start == old(self).start,
            final(self).end == old(self).end,
            ({
                let from = old(self).start + old(self).position;
                let n = if old(self).remaining() < old(self).in_image() {
                    old(self).remaining()
                } else {
                    old(self).in_image()
                };
                &&& r is Ok
                &&& r->Ok_0@.len() == n
                &&& forall|k: int| 0 <= k < n ==> r->Ok_0@[k] == old(self).file@[from + k]
                &&& final(self).position == old(self).position + n
            }),
    {
        let from = self.position + self.start;
        let len = self.end - self.start - self.position;
        let file_len = self.file.len() as u64;
        let in_image: u64 = if from >= file_len { 0 } else { file_len - from };
        let size: u64 = if len < in_image { len } else { in_image };
        if size == 0 {
            return Ok(Vec::new());
        }
        let out = vstd::slice::slice_to_vec(
            vstd::slice::slice_subrange(self.file, from as usize, (from + size) as usize),
        );
        self.position = self.position + size;
        Ok(out)
    }
}

/// A drained stream delivers nothing more: once the position is at the end of the range,
/// every read returns zero.
pub proof fn lemma_drained_reads_nothing(r: PlaintextReader, buf_len: int)
    requires
        r.wf(),
        r.position == r.end - r.start,
        buf_len >= 0,
    ensures
        r.read_count(buf_len) == 0,
{
}

/// A stream whose range lies within the image yields, when read to the end from the start,
/// exactly as many bytes as the range holds.
pub proof fn lemma_full_range_in_image(r: PlaintextReader)
    requires
        r.wf(),
        r.position == 0,
        r.end <= r.file@.len(),
    ensures
        (if r.remaining() < r.in_image() { r.remaining() } else { r.in_image() }) == r.length(),
{
}

/// `base + off`, when that lies in `[0, u64::MAX]`.
fn offset_position(base: u64, off: i64) -> (r: Option<u64>)
    ensures
        0 <= base + off <= u64::MAX ==> r == Some((base + off) as u64),
        !(0 <= base + off <= u64::MAX) ==> r is None,
{
    if off >= 0 {
        base.checked_add(off as u64)
    } else {
        let back: u64 = if off == i64::MIN { 0x8000_0000_0000_0000u64 } else { (-off) as u64 };
        base.checked_sub(back)
    }
}

} // verus!
