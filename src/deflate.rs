//! A stream that decodes a DEFLATE-compressed byte range of the archive image.

use vstd::prelude::*;
use flate2::{Decompress, FlushDecompress, Status};
use crate::plaintext::copy_into;
use crate::result::{IoFault, ZipError, ZipResult};

verus! {

/// Size of the raw-input buffer, refilled from the image when drained.
pub const DEFLATE_BUF_SIZE: usize = 32;

#[verifier::external_type_specification]
#[verifier::external_body]
pub struct ExDecompress(flate2::Decompress);

/// Relies on flate2's constructor of a raw DEFLATE decoder (no zlib header).
pub assume_specification[ flate2::Decompress::new ](zlib_header: bool) -> flate2::Decompress;

/// Relies on flate2's running count of input bytes consumed by the decoder.
pub assume_specification[ flate2::Decompress::total_in ](d: &flate2::Decompress) -> u64;

/// Relies on flate2's running count of output bytes produced by the decoder.
pub assume_specification[ flate2::Decompress::total_out ](d: &flate2::Decompress) -> u64;

/// What one call of the DEFLATE engine reported.
#[derive(Clone, Copy, Debug, PartialEq, Eq, Structural)]
pub enum InflateStatus {
    Progress,
    BufError,
    StreamEnd,
    Corrupt,
}

/// Relies on flate2::Decompress::decompress: decodes from `input` into `output`, with the
/// final flush when `finish` holds; its status, or `Corrupt` for a stream it rejects.
#[verifier::external_body]
fn inflate(d: &mut Decompress, input: &[u8], output: &mut [u8], finish: bool) -> (r: InflateStatus)
    ensures
        final(output)@.len() == old(output)@.len(),
{
    let flush = if finish { FlushDecompress::Finish } else { FlushDecompress::None };
    match d.decompress(input, output, flush) {
        Ok(Status::Ok) => InflateStatus::Progress,
        Ok(Status::BufError) => InflateStatus::BufError,
        Ok(Status::StreamEnd) => InflateStatus::StreamEnd,
        Err(_) => InflateStatus::Corrupt,
    }
}

/// What the read loop does after one call of the engine.
#[derive(Clone, Copy, Debug, PartialEq, Eq, Structural)]
pub enum StepAction {
    /// Call the engine again.
    Retry,
    /// Return this many decoded bytes.
    Deliver(usize),
    /// Fail: the compressed bytes are corrupt.
    Fail,
}

/// Decides the read loop's next move from what one engine call did: `produced` output bytes,
/// `consumed` input bytes, on an input that was empty (`eof`) or not, into a buffer that was
/// empty or not.
pub fn decide_step(status: InflateStatus, produced: usize, consumed: usize, eof: bool, buf_empty: bool) -> (r: StepAction)
    ensures
        status == InflateStatus::Corrupt ==> r == StepAction::Fail,
        status != InflateStatus::Corrupt && status != InflateStatus::StreamEnd && produced == 0
            && !eof && !buf_empty ==> r == (if consumed > 0 { StepAction::Retry } else { StepAction::Fail }),
        status != InflateStatus::Corrupt && !(status != InflateStatus::StreamEnd && produced == 0
            && !eof && !buf_empty) ==> r == StepAction::Deliver(produced),
{
    if status == InflateStatus::Corrupt {
        StepAction::Fail
    } else if status != InflateStatus::StreamEnd && produced == 0 && !eof && !buf_empty {
        if consumed > 0 {
            StepAction::Retry
        } else {
            StepAction::Fail
        }
    } else {
        StepAction::Deliver(produced)
    }
}

pub struct DeflateReader<'a> {
    pub file: &'a [u8],
    pub position: u64,
    pub start: u64,
    pub end: u64,
    pub decompress: Decompress,
    pub deflate_buf: Vec<u8>,
    pub deflate_size: usize,
    pub deflate_position: usize,
    /// The engine has reported the end of the stream, or had nothing left to give.
    pub finished: bool,
}

impl<'a> DeflateReader<'a> {
    /// The range is well ordered, the position lies within it, and the buffered input is
    /// the part of the range just after the position.
    pub open spec fn wf(&self) -> bool {
        &&& self.start <= self.end
        &&& self.position <= self.end - self.start
        &&& self.deflate_buf@.len() == DEFLATE_BUF_SIZE
        &&& self.deflate_position <= self.deflate_size <= DEFLATE_BUF_SIZE
        &&& self.position + (self.deflate_size - self.deflate_position) <= self.end - self.start
    }

    pub fn new(file: &'a [u8], start: u64, end: u64) -> (r: Self)
        requires
            start <= end,
        ensures
            r.wf(),
            r.file@ == file@,
            r.start == start,
            r.end == end,
            r.position == 0,
            !r.finished,
    {
        DeflateReader {
            file,
            position: 0,
            start,
            end,
            decompress: Decompress::new(false),
            deflate_buf: vec![0u8; DEFLATE_BUF_SIZE],
            deflate_size: 0,
            deflate_position: 0,
            finished: false,
        }
    }

    /// Decodes the next bytes of the entry into `buf`, and returns how many; zero at the end
    /// of the stream. The position advances by the compressed bytes consumed; once the range
    /// is consumed, the engine is asked to finish, which drains what it still holds.
    pub fn read(&mut self, buf: &mut [u8]) -> (r: ZipResult<usize>)
        requires
            old(self).wf(),
        ensures
            final(self).wf(),
            final(self).file == old(self).file,
            final(self).start == old(self).start,
            final(self).end == old(self).end,
            final(self).position >= old(self).position,
            final(buf)@.len() == old(buf)@.len(),
            old(self).finished ==> r == Ok::<usize, ZipError>(0) && *final(self) == *old(self),
            r is Ok && r->Ok_0 == 0 && old(buf)@.len() > 0 ==> final(self).finished,
            final(self).finished && !old(self).finished ==> r is Ok,
            r is Ok ==> r->Ok_0 <= old(buf)@.len(),
            r is Err ==> r == Err::<usize, ZipError>(ZipError::Io(IoFault::CorruptDeflate)),
    {
        if self.finished {
            return Ok(0);
        }
        loop
            invariant
                self.wf(),
                self.file == old(self).file,
                self.start == old(self).start,
                self.end == old(self).end,
                self.position >= old(self).position,
                !old(self).finished,
                !self.finished,
                buf@.len() == old(buf)@.len(),
            decreases self.end - self.start - self.position,
        {
            if self.deflate_position == self.deflate_size {
                let from = self.position + self.start;
                let rest = self.end - self.start - self.position;
                let limit: u64 = if rest < DEFLATE_BUF_SIZE as u64 { rest } else { DEFLATE_BUF_SIZE as u64 };
                let file_len = self.file.len() as u64;
                let in_image: u64 = if from >= file_len { 0 } else { file_len - from };
                let size: u64 = if limit < in_image { limit } else { in_image };
                if size > 0 {
                    copy_into(self.file, from, self.deflate_buf.as_mut_slice(), size as usize);
                }
                self.deflate_size = size as usize;
                self.deflate_position = 0;
            }
            let input = vstd::slice::slice_subrange(
                self.deflate_buf.as_slice(),
                self.deflate_position,
                self.deflate_size,
            );
            let eof = input.len() == 0;
            let before_out = self.decompress.total_out();
            let before_in = self.decompress.total_in();
            let status = inflate(&mut self.decompress, input, buf, eof);
            let after_out = self.decompress.total_out();
            let after_in = self.decompress.total_in();
            if after_out < before_out || after_in < before_in {
                return Err(ZipError::Io(IoFault::CorruptDeflate));
            }
            let produced = after_out - before_out;
            let consumed = after_in - before_in;
            if produced > buf.len() as u64 || consumed > input.len() as u64 {
                return Err(ZipError::Io(IoFault::CorruptDeflate));
            }
            self.deflate_position = self.deflate_position + consumed as usize;
            self.position = self.position + consumed;
            match decide_step(status, produced as usize, consumed as usize, eof, buf.len() == 0) {
                StepAction::Retry => {},
                StepAction::Deliver(n) => {
                    if status == InflateStatus::StreamEnd || (eof && n == 0) {
                        self.finished = true;
                    }
                    return Ok(n);
                },
                StepAction::Fail => {
                    return Err(ZipError::Io(IoFault::CorruptDeflate));
                },
            }
        }
    }

    /// Repositioning within a DEFLATE stream is not supported: it always fails.
    pub fn seek(&mut self, pos: crate::plaintext::SeekPos) -> (r: ZipResult<u64>)
        ensures
            r == Err::<u64, ZipError>(ZipError::Io(IoFault::Unsupported)),
            *final(self) == *old(self),
    {
        Err(ZipError::Io(IoFault::Unsupported))
    }
}

} // verus!
