//! Little-endian integers read at a position of a byte image.

use vstd::prelude::*;
use crate::result::{ZipError, IoFault, ZipResult, eof_error};

verus! {

/// The 16-bit little-endian integer stored at `i`.
pub open spec fn le16(s: Seq<u8>, i: int) -> int {
    s[i] as int + 256 * (s[i + 1] as int)
}

/// The 32-bit little-endian integer stored at `i`.
pub open spec fn le32(s: Seq<u8>, i: int) -> int {
    le16(s, i) + 65536 * le16(s, i + 2)
}

/// The 64-bit little-endian integer stored at `i`.
pub open spec fn le64(s: Seq<u8>, i: int) -> int {
    le32(s, i) + 4294967296 * le32(s, i + 4)
}

/// Whether `n` bytes are available at position `pos`.
pub open spec fn avail(s: Seq<u8>, pos: int, n: int) -> bool {
    0 <= pos && pos + n <= s.len()
}

/// Whether `n` bytes are available at `pos`, computed without overflow.
pub fn fits(data: &[u8], pos: u64, n: u64) -> (r: bool)
    ensures
        r == avail(data@, pos as int, n as int),
        data@.len() <= usize::MAX,
{
    let len = data.len() as u64;
    pos <= len && len - pos >= n
}

pub fn read_u8(data: &[u8], pos: u64) -> (r: ZipResult<u8>)
    ensures
        avail(data@, pos as int, 1) ==> r == Ok::<u8, ZipError>(data@[pos as int]),
        !avail(data@, pos as int, 1) ==> r == Err::<u8, ZipError>(eof_error()),
{
    if !fits(data, pos, 1) {
        return Err(ZipError::Io(IoFault::UnexpectedEof));
    }
    Ok(data[pos as usize])
}

pub fn read_u16(data: &[u8], pos: u64) -> (r: ZipResult<u16>)
    ensures
        avail(data@, pos as int, 2) ==> r == Ok::<u16, ZipError>(le16(data@, pos as int) as u16),
        avail(data@, pos as int, 2) ==> le16(data@, pos as int) <= u16::MAX,
        !avail(data@, pos as int, 2) ==> r == Err::<u16, ZipError>(eof_error()),
{
    if !fits(data, pos, 2) {
        return Err(ZipError::Io(IoFault::UnexpectedEof));
    }
    let p = pos as usize;
    let v = data[p] as u16 + 256 * (data[p + 1] as u16);
    Ok(v)
}

pub fn read_u32(data: &[u8], pos: u64) -> (r: ZipResult<u32>)
    ensures
        avail(data@, pos as int, 4) ==> r == Ok::<u32, ZipError>(le32(data@, pos as int) as u32),
        avail(data@, pos as int, 4) ==> le32(data@, pos as int) <= u32::MAX,
        !avail(data@, pos as int, 4) ==> r == Err::<u32, ZipError>(eof_error()),
{
    if !fits(data, pos, 4) {
        return Err(ZipError::Io(IoFault::UnexpectedEof));
    }
    let lo = read_u16(data, pos)?;
    let hi = read_u16(data, pos + 2)?;
    Ok(lo as u32 + 65536 * (hi as u32))
}

pub fn read_u64(data: &[u8], pos: u64) -> (r: ZipResult<u64>)
    ensures
        avail(data@, pos as int, 8) ==> r == Ok::<u64, ZipError>(le64(data@, pos as int) as u64),
        avail(data@, pos as int, 8) ==> le64(data@, pos as int) <= u64::MAX,
        !avail(data@, pos as int, 8) ==> r == Err::<u64, ZipError>(eof_error()),
{
    if !fits(data, pos, 8) {
        return Err(ZipError::Io(IoFault::UnexpectedEof));
    }
    let lo = read_u32(data, pos)?;
    let hi = read_u32(data, pos + 4)?;
    Ok(lo as u64 + 4294967296 * (hi as u64))
}

} // verus!
