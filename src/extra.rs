//! Resolution of an entry's extra-field block: ZIP64 sizes and offsets, AES parameters.

use vstd::prelude::*;
use crate::bytes::{avail, fits, le16, le64, read_u16, read_u64, read_u8};
use crate::format::{AesMode, AesVendorVersion, CompressionMethod, ZIP64_BYTES_THR, method_of};
use crate::result::{ZipError, ZipResult, eof_error};

verus! {

/// Kind of the extra-field record that widens sizes and offsets to 64 bits.
pub const ZIP64_EXTRA_KIND: u16 = 0x0001;
/// Kind of the extra-field record that describes AES encryption.
pub const AES_EXTRA_KIND: u16 = 0x9901;
/// Vendor tag that an AES record must carry ("AE").
pub const AES_VENDOR_ID: u16 = 0x4541;

/// The properties of an entry that its extra field may override.
#[derive(Clone, Copy, Debug, PartialEq, Eq)]
pub struct ExtraFields {
    pub compression_method: CompressionMethod,
    pub compressed_size: u64,
    pub uncompressed_size: u64,
    pub header_start: u64,
    pub large_file: bool,
    pub aes_mode: Option<(AesMode, AesVendorVersion)>,
}

/// How a step of the scan ended.
#[derive(Clone, Copy, Debug, PartialEq, Eq)]
pub enum ExtraStop {
    /// The record was consumed; the scan goes on.
    Next,
    /// The block ended inside a record.
    Eof,
    /// An AES record whose payload is not seven bytes long.
    AesLength,
    /// An AES record with an unknown vendor, version or strength.
    Invalid,
}

/// Reads one 64-bit override at `q` when `value` holds the 32-bit sentinel:
/// the new value, the position after it, and whether the bytes were there.
pub open spec fn override_field(s: Seq<u8>, q: int, value: u64) -> (u64, int, bool) {
    if value != ZIP64_BYTES_THR {
        (value, q, true)
    } else if !avail(s, q, 8) {
        (value, q, false)
    } else {
        (le64(s, q) as u64, q + 8, true)
    }
}

/// One ZIP64 record whose payload starts at `p` and declares `len` bytes.
pub open spec fn zip64_step(s: Seq<u8>, p: int, len: int, st: ExtraFields) -> (ExtraFields, int, ExtraStop) {
    let u = override_field(s, p, st.uncompressed_size);
    let large1 = st.large_file || st.uncompressed_size == ZIP64_BYTES_THR;
    if !u.2 {
        (ExtraFields { large_file: large1, ..st }, p, ExtraStop::Eof)
    } else {
        let c = override_field(s, u.1, st.compressed_size);
        let large2 = large1 || st.compressed_size == ZIP64_BYTES_THR;
        let st2 = ExtraFields { large_file: large2, uncompressed_size: u.0, ..st };
        if !c.2 {
            (st2, p, ExtraStop::Eof)
        } else {
            let h = override_field(s, c.1, st.header_start);
            let large3 = large2 || st.header_start == ZIP64_BYTES_THR;
            let st3 = ExtraFields { compressed_size: c.0, large_file: large3, ..st2 };
            if !h.2 {
                (st3, p, ExtraStop::Eof)
            } else {
                let st4 = ExtraFields { header_start: h.0, ..st3 };
                let next = if p + len > h.1 { p + len } else { h.1 };
                (st4, next, ExtraStop::Next)
            }
        }
    }
}

/// The AES strength that a stored code stands for.
pub open spec fn aes_mode_of(code: u8) -> Option<AesMode> {
    if code == 1 {
        Some(AesMode::Aes128)
    } else if code == 2 {
        Some(AesMode::Aes192)
    } else if code == 3 {
        Some(AesMode::Aes256)
    } else {
        None
    }
}

/// The AES vendor version that a stored code stands for.
pub open spec fn aes_version_of(code: u16) -> Option<AesVendorVersion> {
    if code == 1 {
        Some(AesVendorVersion::Ae1)
    } else if code == 2 {
        Some(AesVendorVersion::Ae2)
    } else {
        None
    }
}

/// One AES record whose payload starts at `p` and declares `len` bytes.
pub open spec fn aes_step(s: Seq<u8>, p: int, len: int, st: ExtraFields) -> (ExtraFields, int, ExtraStop) {
    if len != 7 {
        (st, p, ExtraStop::AesLength)
    } else if !avail(s, p, 7) {
        (st, p, ExtraStop::Eof)
    } else if le16(s, p + 2) != AES_VENDOR_ID || aes_version_of(le16(s, p) as u16) is None
        || aes_mode_of(s[p + 4]) is None {
        (st, p, ExtraStop::Invalid)
    } else {
        let mode = aes_mode_of(s[p + 4])->Some_0;
        let version = aes_version_of(le16(s, p) as u16)->Some_0;
        (
            ExtraFields {
                aes_mode: Some((mode, version)),
                compression_method: method_of(le16(s, p + 5) as u16),
                ..st
            },
            p + 7,
            ExtraStop::Next,
        )
    }
}

/// The record that starts at `pos`: the fields after it, where the next record starts, and
/// how the step ended.
pub open spec fn extra_step(s: Seq<u8>, pos: int, st: ExtraFields) -> (ExtraFields, int, ExtraStop) {
    if !avail(s, pos, 4) {
        (st, pos, ExtraStop::Eof)
    } else {
        let kind = le16(s, pos);
        let len = le16(s, pos + 2);
        if kind == ZIP64_EXTRA_KIND {
            zip64_step(s, pos + 4, len, st)
        } else if kind == AES_EXTRA_KIND {
            aes_step(s, pos + 4, len, st)
        } else {
            (st, pos + 4 + len, ExtraStop::Next)
        }
    }
}

/// The fields after the whole block from `pos` on has been scanned, and how the scan ended
/// (`Next` when it reached the end of the block).
pub open spec fn extra_outcome(s: Seq<u8>, pos: int, st: ExtraFields) -> (ExtraFields, ExtraStop)
    decreases s.len() - pos,
{
    if pos < 0 || pos >= s.len() {
        (st, ExtraStop::Next)
    } else {
        let step = extra_step(s, pos, st);
        if step.2 != ExtraStop::Next || step.1 <= pos {
            (step.0, step.2)
        } else if step.1 >= s.len() {
            (step.0, ExtraStop::Next)
        } else {
            extra_outcome(s, step.1, step.0)
        }
    }
}

/// The result that a scan ending in `stop` reports.
pub open spec fn stop_result(stop: ExtraStop, r: ZipResult<()>) -> bool {
    match stop {
        ExtraStop::Next => r is Ok,
        ExtraStop::Eof => r == Err::<(), ZipError>(eof_error()),
        ExtraStop::AesLength => r == Err::<(), ZipError>(ZipError::UnsupportedAesExtraData),
        ExtraStop::Invalid => r is Err && r->Err_0 is InvalidArchive,
    }
}

/// Bytes that a ZIP64 record needs for the fields of `st` that hold the sentinel.
pub open spec fn zip64_payload_needed(st: ExtraFields) -> int {
    (if st.uncompressed_size == ZIP64_BYTES_THR { 8int } else { 0int })
        + (if st.compressed_size == ZIP64_BYTES_THR { 8int } else { 0int })
        + (if st.header_start == ZIP64_BYTES_THR { 8int } else { 0int })
}

/// From `pos` up to `stop`, the block holds whole records of kinds other than ZIP64 and AES.
pub open spec fn other_records_until(s: Seq<u8>, pos: int, stop: int) -> bool
    decreases stop - pos,
{
    if pos >= stop {
        pos == stop
    } else {
        let next = pos + 4 + le16(s, pos + 2);
        &&& avail(s, pos, 4)
        &&& le16(s, pos) != ZIP64_EXTRA_KIND
        &&& le16(s, pos) != AES_EXTRA_KIND
        &&& next <= stop
        &&& other_records_until(s, next, stop)
    }
}

/// Records of other kinds leave the fields as they are.
proof fn lemma_other_records_skipped(s: Seq<u8>, pos: int, stop: int, st: ExtraFields)
    requires
        0 <= pos,
        stop <= s.len(),
        other_records_until(s, pos, stop),
    ensures
        extra_outcome(s, pos, st) == extra_outcome(s, stop, st),
    decreases stop - pos,
{
    if pos < stop {
        let next = pos + 4 + le16(s, pos + 2);
        lemma_other_records_skipped(s, next, stop, st);
    }
}

/// A field that holds the 32-bit sentinel takes the 64-bit value of the block's ZIP64 record,
/// in the order uncompressed size, compressed size, local header offset, and each such
/// override marks the entry large. The block is whole records: others, then the ZIP64 record
/// at `z` carrying every field that the sentinel asks for, then others; none is an AES record.
pub proof fn lemma_zip64_sizes_resolved(s: Seq<u8>, z: int, st: ExtraFields)
    requires
        0 <= z,
        other_records_until(s, 0, z),
        avail(s, z, 4),
        le16(s, z) == ZIP64_EXTRA_KIND,
        le16(s, z + 2) >= zip64_payload_needed(st),
        z + 4 + le16(s, z + 2) <= s.len(),
        other_records_until(s, z + 4 + le16(s, z + 2), s.len() as int),
        st.uncompressed_size == ZIP64_BYTES_THR || st.compressed_size == ZIP64_BYTES_THR
            || st.header_start == ZIP64_BYTES_THR,
    ensures
        ({
            let out = extra_outcome(s, 0, st);
            let c_at = z + 4 + if st.uncompressed_size == ZIP64_BYTES_THR { 8int } else { 0int };
            let h_at = c_at + if st.compressed_size == ZIP64_BYTES_THR { 8int } else { 0int };
            &&& out.1 == ExtraStop::Next
            &&& out.0.large_file
            &&& st.uncompressed_size == ZIP64_BYTES_THR ==> out.0.uncompressed_size == le64(s, z + 4)
            &&& st.compressed_size == ZIP64_BYTES_THR ==> out.0.compressed_size == le64(s, c_at)
            &&& st.header_start == ZIP64_BYTES_THR ==> out.0.header_start == le64(s, h_at)
        }),
{
    lemma_other_records_skipped(s, 0, z, st);
    let step = extra_step(s, z, st);
    let next = z + 4 + le16(s, z + 2);
    assert(step.1 == next);
    assert(step.2 == ExtraStop::Next);
    lemma_other_records_skipped(s, next, s.len() as int, step.0);
}

/// Reads the override at `q` if `value` is the sentinel.
fn read_override(s: &[u8], q: u64, value: u64) -> (r: Option<(u64, u64)>)
    requires
        q <= s@.len(),
    ensures
        override_field(s@, q as int, value).2 <==> r is Some,
        r is Some ==> r->Some_0.0 == override_field(s@, q as int, value).0
            && r->Some_0.1 == override_field(s@, q as int, value).1,
{
    if value != ZIP64_BYTES_THR {
        return Some((value, q));
    }
    let _len = s.len();
    match read_u64(s, q) {
        Ok(v) => Some((v, q + 8)),
        Err(_) => None,
    }
}

/// Applies the extra-field block `s` to `st`, one record at a time.
pub fn resolve_extra_fields(s: &[u8], st: &mut ExtraFields) -> (r: ZipResult<()>)
    requires
        s@.len() <= 65535,
    ensures
        *final(st) == extra_outcome(s@, 0, *old(st)).0,
        stop_result(extra_outcome(s@, 0, *old(st)).1, r),
{
    let n = s.len() as u64;
    let mut pos: u64 = 0;
    while pos < n
        invariant
            n == s@.len(),
            n <= 65535,
            pos <= n + 65540,
            extra_outcome(s@, pos as int, *st) == extra_outcome(s@, 0, *old(st)),
        decreases n + 65540 - pos,
    {
        let ghost before = *st;
        if !fits(s, pos, 4) {
            return Err(ZipError::Io(crate::result::IoFault::UnexpectedEof));
        }
        let kind = read_u16(s, pos)?;
        let len = read_u16(s, pos + 2)? as u64;
        let p = pos + 4;
        if kind == ZIP64_EXTRA_KIND {
            if st.uncompressed_size == ZIP64_BYTES_THR {
                st.large_file = true;
            }
            let u = read_override(s, p, st.uncompressed_size);
            let (uv, q1) = match u {
                Some(x) => x,
                None => { return Err(ZipError::Io(crate::result::IoFault::UnexpectedEof)); },
            };
            st.uncompressed_size = uv;
            if st.compressed_size == ZIP64_BYTES_THR {
                st.large_file = true;
            }
            let c = read_override(s, q1, st.compressed_size);
            let (cv, q2) = match c {
                Some(x) => x,
                None => { return Err(ZipError::Io(crate::result::IoFault::UnexpectedEof)); },
            };
            st.compressed_size = cv;
            if st.header_start == ZIP64_BYTES_THR {
                st.large_file = true;
            }
            let h = read_override(s, q2, st.header_start);
            let (hv, q3) = match h {
                Some(x) => x,
                None => { return Err(ZipError::Io(crate::result::IoFault::UnexpectedEof)); },
            };
            st.header_start = hv;
            pos = if p + len > q3 { p + len } else { q3 };
        } else if kind == AES_EXTRA_KIND {
            if len != 7 {
                return Err(ZipError::UnsupportedAesExtraData);
            }
            if !fits(s, p, 7) {
                return Err(ZipError::Io(crate::result::IoFault::UnexpectedEof));
            }
            let vendor_version = read_u16(s, p)?;
            let vendor_id = read_u16(s, p + 2)?;
            let aes_mode = read_u8(s, p + 4)?;
            let compression_method = read_u16(s, p + 5)?;
            if vendor_id != AES_VENDOR_ID {
                return Err(ZipError::InvalidArchive("Invalid AES vendor"));
            }
            let version = match vendor_version {
                1 => AesVendorVersion::Ae1,
                2 => AesVendorVersion::Ae2,
                _ => { return Err(ZipError::InvalidArchive("Invalid AES vendor version")); },
            };
            let mode = match aes_mode {
                1 => AesMode::Aes128,
                2 => AesMode::Aes192,
                3 => AesMode::Aes256,
                _ => { return Err(ZipError::InvalidArchive("Invalid AES encryption strength")); },
            };
            st.aes_mode = Some((mode, version));
            st.compression_method = CompressionMethod::from_u16(compression_method);
            pos = p + 7;
        } else {
            pos = p + len;
        }
    }
    Ok(())
}

} // verus!
