//! Entry metadata decoded from the central directory.

use vstd::prelude::*;
use crate::bytes::{avail, fits, le16, le32, read_u16, read_u32};
use crate::cp437::{cp437_text, from_cp437};
use crate::extra::{ExtraFields, ExtraStop, extra_outcome, resolve_extra_fields, stop_result};
use crate::format::{
    AesMode, AesVendorVersion, CENTRAL_DIRECTORY_HEADER_SIGNATURE, CompressionMethod, bytes_at,
    copy_bytes, method_of,
};
use crate::deflate::DeflateReader;
use crate::plaintext::{PlaintextReader, SeekPos};
use crate::result::{IoFault, ZipError, ZipResult, eof_error};

verus! {

/// Size of a central directory header without its name, extra field and comment.
pub const CENTRAL_HEADER_SIZE: u64 = 46;

pub uninterp spec fn utf8_lossy_of(b: Seq<u8>) -> Seq<char>;

/// Relies on String::from_utf8_lossy: the text of `b`, with each invalid sequence replaced;
/// it depends on the bytes alone.
#[verifier::external_body]
fn utf8_lossy(b: &[u8]) -> (r: String)
    ensures
        r@ == utf8_lossy_of(b@),
        b@.len() == 0 ==> r@.len() == 0,
{
    String::from_utf8_lossy(b).into_owned()
}

/// The name that raw bytes stand for, by the UTF-8 flag of the header.
pub open spec fn decode_name(raw: Seq<u8>, utf8: bool) -> Seq<char> {
    if utf8 {
        utf8_lossy_of(raw)
    } else {
        cp437_text(raw)
    }
}

pub struct ZipFileData {
    pub compression_method: CompressionMethod,
    pub compressed_size: u64,
    pub uncompressed_size: u64,
    pub file_name: String,
    pub extra_field: Vec<u8>,
    pub header_start: u64,
    pub central_header_start: u64,
    pub large_file: bool,
    pub aes_mode: Option<(AesMode, AesVendorVersion)>,
}

impl ZipFileData {
    /// The properties that the extra field may override, as this entry holds them.
    pub open spec fn extra_view(&self) -> ExtraFields {
        ExtraFields {
            compression_method: self.compression_method,
            compressed_size: self.compressed_size,
            uncompressed_size: self.uncompressed_size,
            header_start: self.header_start,
            large_file: self.large_file,
            aes_mode: self.aes_mode,
        }
    }
}

/// Length of the name stored in the central header at `p`.
pub open spec fn name_len(s: Seq<u8>, p: int) -> int {
    le16(s, p + 28)
}

/// Length of the extra field stored in the central header at `p`.
pub open spec fn extra_len(s: Seq<u8>, p: int) -> int {
    le16(s, p + 30)
}

/// Length of the comment stored in the central header at `p`.
pub open spec fn comment_len(s: Seq<u8>, p: int) -> int {
    le16(s, p + 32)
}

/// Position just after the central header at `p` and its three variable blocks.
pub open spec fn central_header_end(s: Seq<u8>, p: int) -> int {
    p + 46 + name_len(s, p) + extra_len(s, p) + comment_len(s, p)
}

/// The whole central header at `p`, variable blocks included, lies within the image.
pub open spec fn central_header_complete(s: Seq<u8>, p: int) -> bool {
    &&& avail(s, p, 46)
    &&& avail(s, p + 46, name_len(s, p) + extra_len(s, p) + comment_len(s, p))
}

/// The extra field stored in the central header at `p`.
pub open spec fn header_extra(s: Seq<u8>, p: int) -> Seq<u8> {
    bytes_at(s, p + 46 + name_len(s, p), extra_len(s, p))
}

/// The name stored in the central header at `p`, decoded.
pub open spec fn header_name(s: Seq<u8>, p: int) -> Seq<char> {
    decode_name(bytes_at(s, p + 46, name_len(s, p)), (le16(s, p + 8) as u16) & 0x800u16 != 0)
}

/// The properties that the fixed fields of the central header at `p` give, before the extra
/// field is applied.
pub open spec fn header_fixed_fields(s: Seq<u8>, p: int) -> ExtraFields {
    ExtraFields {
        compression_method: method_of(le16(s, p + 10) as u16),
        compressed_size: le32(s, p + 20) as u64,
        uncompressed_size: le32(s, p + 24) as u64,
        header_start: le32(s, p + 42) as u64,
        large_file: false,
        aes_mode: None,
    }
}

/// The properties of the entry at `p` once its extra field has been applied, and how that
/// scan ended.
pub open spec fn header_resolved(s: Seq<u8>, p: int) -> (ExtraFields, ExtraStop) {
    extra_outcome(header_extra(s, p), 0, header_fixed_fields(s, p))
}

/// The scan of the extra field ended in a way that keeps the entry.
pub open spec fn stop_keeps_entry(stop: ExtraStop) -> bool {
    stop == ExtraStop::Next || stop == ExtraStop::Eof
}

/// What decoding the complete central header at `p`, whose signature matched, gives.
#[verifier::opaque]
pub open spec fn header_outcome_ok(s: Seq<u8>, p: int, archive_offset: u64, r: ZipResult<ZipFileData>) -> bool {
    let res = header_resolved(s, p);
    let f = res.0;
    if res.1 == ExtraStop::AesLength {
        r == Err::<ZipFileData, ZipError>(ZipError::UnsupportedAesExtraData)
    } else if res.1 == ExtraStop::Invalid {
        r is Err && r->Err_0 is InvalidArchive
    } else if f.compression_method is Unsupported {
        r == Err::<ZipFileData, ZipError>(ZipError::UnsupportedCompressionMethod(f.compression_method->Unsupported_0))
    } else if f.header_start + archive_offset > u64::MAX {
        r is Err && r->Err_0 is InvalidArchive
    } else {
        &&& r is Ok
        &&& r->Ok_0.file_name@ == header_name(s, p)
        &&& r->Ok_0.extra_field@ == header_extra(s, p)
        &&& r->Ok_0.central_header_start == p
        &&& r->Ok_0.compression_method == f.compression_method
        &&& r->Ok_0.compressed_size == f.compressed_size
        &&& r->Ok_0.uncompressed_size == f.uncompressed_size
        &&& r->Ok_0.header_start == f.header_start + archive_offset
        &&& r->Ok_0.large_file == f.large_file
        &&& r->Ok_0.aes_mode == f.aes_mode
    }
}

/// What decoding the central header at `p` gives.
pub open spec fn header_outcome(s: Seq<u8>, p: int, archive_offset: u64, r: ZipResult<ZipFileData>) -> bool {
    if !avail(s, p, 4) {
        r == Err::<ZipFileData, ZipError>(eof_error())
    } else if le32(s, p) != CENTRAL_DIRECTORY_HEADER_SIGNATURE {
        r is Err && r->Err_0 is InvalidArchive
    } else if !central_header_complete(s, p) {
        r == Err::<ZipFileData, ZipError>(eof_error())
    } else {
        header_outcome_ok(s, p, archive_offset, r)
    }
}

/// Decodes the central directory header at `*cursor` into an entry, shifting its local
/// header offset by `archive_offset`. A complete header moves the cursor past it, whether
/// or not the entry is kept.
pub fn central_header_to_zip_file(data: &[u8], cursor: &mut u64, archive_offset: u64) -> (r: ZipResult<ZipFileData>)
    ensures
        header_outcome(data@, *old(cursor) as int, archive_offset, r),
        avail(data@, *old(cursor) as int, 4) && le32(data@, *old(cursor) as int)
            == CENTRAL_DIRECTORY_HEADER_SIGNATURE && central_header_complete(data@, *old(cursor) as int)
            ==> *final(cursor) == central_header_end(data@, *old(cursor) as int),
{
    let central_header_start = *cursor;
    let _len = data.len();
    let signature = read_u32(data, central_header_start)?;
    if signature != CENTRAL_DIRECTORY_HEADER_SIGNATURE {
        return Err(ZipError::InvalidArchive("Invalid Central Directory header"));
    }
    *cursor = central_header_start + 4;
    central_header_to_zip_file_inner(data, cursor, archive_offset, central_header_start)
}

/// Decodes the central directory header whose signature, at `central_header_start`, has
/// been read; `*cursor` stands just after the signature.
pub fn central_header_to_zip_file_inner(
    data: &[u8],
    cursor: &mut u64,
    archive_offset: u64,
    central_header_start: u64,
) -> (r: ZipResult<ZipFileData>)
    requires
        *old(cursor) == central_header_start + 4,
        avail(data@, central_header_start as int, 4),
        le32(data@, central_header_start as int) == CENTRAL_DIRECTORY_HEADER_SIGNATURE,
    ensures
        !central_header_complete(data@, central_header_start as int) ==> r == Err::<ZipFileData, ZipError>(eof_error()),
        central_header_complete(data@, central_header_start as int) ==> header_outcome_ok(
            data@,
            central_header_start as int,
            archive_offset,
            r,
        ),
        central_header_complete(data@, central_header_start as int) ==> *final(cursor)
            == central_header_end(data@, central_header_start as int),
{
    let p = central_header_start;
    let _len = data.len();
    if !fits(data, p, CENTRAL_HEADER_SIZE) {
        return Err(ZipError::Io(crate::result::IoFault::UnexpectedEof));
    }
    let _version_made_by = read_u16(data, p + 4)?;
    let _version_to_extract = read_u16(data, p + 6)?;
    let flags = read_u16(data, p + 8)?;
    let is_utf8 = flags & 0x800u16 != 0;
    let compression_method = read_u16(data, p + 10)?;
    let compressed_size = read_u32(data, p + 20)?;
    let uncompressed_size = read_u32(data, p + 24)?;
    let file_name_length = read_u16(data, p + 28)? as u64;
    let extra_field_length = read_u16(data, p + 30)? as u64;
    let file_comment_length = read_u16(data, p + 32)? as u64;
    let offset = read_u32(data, p + 42)? as u64;
    proof {
        reveal(header_outcome_ok);
    }
    let name_start = p + CENTRAL_HEADER_SIZE;
    if !fits(data, name_start, file_name_length + extra_field_length + file_comment_length) {
        return Err(ZipError::Io(crate::result::IoFault::UnexpectedEof));
    }
    let extra_start = name_start + file_name_length;
    let file_name_raw = vstd::slice::slice_subrange(data, name_start as usize, extra_start as usize);
    let extra_field = copy_bytes(data, extra_start, extra_field_length);
    *cursor = extra_start + extra_field_length + file_comment_length;
    let file_name = if is_utf8 {
        utf8_lossy(file_name_raw)
    } else {
        from_cp437(file_name_raw)
    };
    let mut result = ZipFileData {
        compression_method: CompressionMethod::from_u16(compression_method),
        compressed_size: compressed_size as u64,
        uncompressed_size: uncompressed_size as u64,
        file_name,
        extra_field,
        header_start: offset,
        central_header_start,
        large_file: false,
        aes_mode: None,
    };
    assert(result.extra_view() == header_fixed_fields(data@, p as int));
    assert(result.extra_field@ == header_extra(data@, p as int));
    match parse_extra_field(&mut result) {
        Ok(..) | Err(ZipError::Io(..)) => {},
        Err(e) => {
            return Err(e);
        },
    }
    if let CompressionMethod::Unsupported(method) = result.compression_method {
        return Err(ZipError::UnsupportedCompressionMethod(method));
    }
    result.header_start = match result.header_start.checked_add(archive_offset) {
        Some(h) => h,
        None => {
            return Err(ZipError::InvalidArchive("Archive header is too large"));
        },
    };
    Ok(result)
}

/// Applies the entry's extra field to its sizes, local header offset, compression method and
/// AES classification. A truncated record ends the scan with an I/O error and keeps what was
/// resolved before it.
fn parse_extra_field(file: &mut ZipFileData) -> (r: ZipResult<()>)
    requires
        old(file).extra_field@.len() <= 65535,
    ensures
        final(file).extra_view() == extra_outcome(old(file).extra_field@, 0, old(file).extra_view()).0,
        stop_result(extra_outcome(old(file).extra_field@, 0, old(file).extra_view()).1, r),
        final(file).file_name == old(file).file_name,
        final(file).extra_field == old(file).extra_field,
        final(file).central_header_start == old(file).central_header_start,
{
    let mut fields = ExtraFields {
        compression_method: file.compression_method,
        compressed_size: file.compressed_size,
        uncompressed_size: file.uncompressed_size,
        header_start: file.header_start,
        large_file: file.large_file,
        aes_mode: file.aes_mode,
    };
    let r = resolve_extra_fields(file.extra_field.as_slice(), &mut fields);
    file.compression_method = fields.compression_method;
    file.compressed_size = fields.compressed_size;
    file.uncompressed_size = fields.uncompressed_size;
    file.header_start = fields.header_start;
    file.large_file = fields.large_file;
    file.aes_mode = fields.aes_mode;
    r
}

/// Size of a local file header without its name and extra field.
pub const LOCAL_HEADER_SIZE: u64 = 30;

/// Where the data of an entry whose local header starts at `h` begins, given the position
/// `position` just after that header's signature.
pub open spec fn local_data_start(s: Seq<u8>, h: int, position: int) -> int {
    h + 30 + le16(s, position + 22) + le16(s, position + 24)
}

/// An open stream over the data of one entry.
pub enum ZipFileReader<'a> {
    Stored(PlaintextReader<'a>),
    Deflate(DeflateReader<'a>),
}

impl<'a> ZipFileReader<'a> {
    pub open spec fn wf(&self) -> bool {
        match self {
            ZipFileReader::Stored(r) => r.wf(),
            ZipFileReader::Deflate(r) => r.wf(),
        }
    }

    /// The range of the image that the stream covers.
    pub open spec fn range(&self) -> (u64, u64) {
        match self {
            ZipFileReader::Stored(r) => (r.start, r.end),
            ZipFileReader::Deflate(r) => (r.start, r.end),
        }
    }

    /// The stream reads from `file`, over `[start, end)`, from its beginning.
    pub open spec fn fresh_over(&self, file: Seq<u8>, start: int, end: int) -> bool {
        match self {
            ZipFileReader::Stored(r) => r.wf() && r.file@ == file && r.start == start && r.end == end
                && r.position == 0,
            ZipFileReader::Deflate(r) => r.wf() && r.file@ == file && r.start == start && r.end
                == end && r.position == 0,
        }
    }

    pub fn read(&mut self, buf: &mut [u8]) -> (r: ZipResult<usize>)
        requires
            old(self).wf(),
        ensures
            final(self).wf(),
            final(self).range() == old(self).range(),
            final(buf)@.len() == old(buf)@.len(),
            r is Ok ==> r->Ok_0 <= old(buf)@.len(),
            *old(self) is Stored ==> *final(self) is Stored && r == Ok::<usize, ZipError>(
                (*old(self))->Stored_0.read_count(old(buf)@.len() as int) as usize,
            ) && (*final(self))->Stored_0.position == (*old(self))->Stored_0.position + (*old(self))->Stored_0.read_count(old(buf)@.len() as int),
            *old(self) is Deflate ==> *final(self) is Deflate,
            *old(self) is Deflate && (*old(self))->Deflate_0.finished ==> r == Ok::<usize, ZipError>(0),
            *old(self) is Deflate && r is Ok && r->Ok_0 == 0 && old(buf)@.len() > 0
                ==> (*final(self))->Deflate_0.finished,
            *old(self) is Deflate && r is Err ==> r == Err::<usize, ZipError>(ZipError::Io(IoFault::CorruptDeflate)),
    {
        match self {
            ZipFileReader::Stored(r) => r.read(buf),
            ZipFileReader::Deflate(r) => r.read(buf),
        }
    }

    pub fn seek(&mut self, pos: SeekPos) -> (r: ZipResult<u64>)
        requires
            old(self).wf(),
        ensures
            final(self).wf(),
            final(self).range() == old(self).range(),
            *old(self) is Deflate ==> r == Err::<u64, ZipError>(ZipError::Io(IoFault::Unsupported)),
            *old(self) is Stored ==> *final(self) is Stored && ({
                let rd = (*old(self))->Stored_0;
                let t = crate::plaintext::seek_target(pos, rd.length(), rd.position as int);
                &&& 0 <= t <= rd.length() ==> r == Ok::<u64, ZipError>(t as u64)
                &&& !(0 <= t <= rd.length()) ==> r == Err::<u64, ZipError>(ZipError::Io(IoFault::InvalidSeek))
            }),
    {
        match self {
            ZipFileReader::Stored(r) => r.seek(pos),
            ZipFileReader::Deflate(r) => r.seek(pos),
        }
    }
}

/// What opening the data of the entry `data`, whose local header signature ends at
/// `position`, gives.
pub open spec fn reader_outcome<'a>(s: Seq<u8>, data: ZipFileData, position: int, r: ZipResult<ZipFileReader<'a>>) -> bool {
    if position + 22 > u64::MAX {
        r is Err && r->Err_0 is InvalidArchive
    } else if !avail(s, position + 22, 4) {
        r is Err && r->Err_0 == eof_error()
    } else {
        let ds = local_data_start(s, data.header_start as int, position);
        if ds > u64::MAX || ds + data.compressed_size > u64::MAX {
            r is Err && r->Err_0 is InvalidArchive
        } else {
            match data.compression_method {
                CompressionMethod::Stored => r is Ok && r->Ok_0 is Stored && r->Ok_0.fresh_over(
                    s,
                    ds,
                    ds + data.compressed_size,
                ),
                CompressionMethod::Deflate => r is Ok && r->Ok_0 is Deflate && r->Ok_0.fresh_over(
                    s,
                    ds,
                    ds + data.compressed_size,
                ),
                CompressionMethod::Unsupported(m) => r is Err && r->Err_0
                    == ZipError::UnsupportedCompressionMethod(m),
            }
        }
    }
}

/// Opens the data of the entry `data`, whose local header signature ends at `position`: reads
/// the header's name and extra lengths and picks the stream by the compression method.
pub fn find_reader<'a>(file: &'a [u8], data: &ZipFileData, position: u64) -> (r: ZipResult<ZipFileReader<'a>>)
    ensures
        reader_outcome(file@, *data, position as int, r),
{
    let _len = file.len();
    let lengths_at = match position.checked_add(22) {
        Some(p) => p,
        None => {
            return Err(ZipError::InvalidArchive("Invalid local file header"));
        },
    };
    if !fits(file, lengths_at, 4) {
        return Err(ZipError::Io(IoFault::UnexpectedEof));
    }
    let file_name_length = read_u16(file, lengths_at)? as u64;
    let extra_field_length = read_u16(file, lengths_at + 2)? as u64;
    let header_len = LOCAL_HEADER_SIZE + file_name_length + extra_field_length;
    let data_start = match data.header_start.checked_add(header_len) {
        Some(d) => d,
        None => {
            return Err(ZipError::InvalidArchive("Archive header is too large"));
        },
    };
    let data_end = match data_start.checked_add(data.compressed_size) {
        Some(e) => e,
        None => {
            return Err(ZipError::InvalidArchive("Invalid compressed size"));
        },
    };
    match data.compression_method {
        CompressionMethod::Stored => Ok(
            ZipFileReader::Stored(PlaintextReader::new(file, data_start, data_end)),
        ),
        CompressionMethod::Deflate => Ok(
            ZipFileReader::Deflate(DeflateReader::new(file, data_start, data_end)),
        ),
        CompressionMethod::Unsupported(method) => Err(ZipError::UnsupportedCompressionMethod(method)),
    }
}

/// An entry opened for reading: its stream and its metadata.
pub struct ZipFile<'a> {
    pub reader: ZipFileReader<'a>,
    pub data: &'a ZipFileData,
}

impl<'a> ZipFile<'a> {
    pub fn new(reader: ZipFileReader<'a>, data: &'a ZipFileData) -> (r: Self)
        ensures
            r.reader == reader,
            r.data == data,
    {
        ZipFile { reader, data }
    }

    /// The stored (compressed) size of the entry.
    pub fn len(&self) -> (r: u64)
        ensures
            r == self.data.compressed_size,
    {
        self.data.compressed_size
    }

    pub fn read(&mut self, buf: &mut [u8]) -> (r: ZipResult<usize>)
        requires
            old(self).reader.wf(),
        ensures
            final(self).reader.wf(),
            final(self).data == old(self).data,
            final(self).reader.range() == old(self).reader.range(),
            final(buf)@.len() == old(buf)@.len(),
            r is Ok ==> r->Ok_0 <= old(buf)@.len(),
            old(self).reader is Stored ==> final(self).reader is Stored && r == Ok::<usize, ZipError>(
                old(self).reader->Stored_0.read_count(old(buf)@.len() as int) as usize,
            ) && final(self).reader->Stored_0.position == old(self).reader->Stored_0.position
                + old(self).reader->Stored_0.read_count(old(buf)@.len() as int),
            old(self).reader is Deflate ==> final(self).reader is Deflate,
            old(self).reader is Deflate && old(self).reader->Deflate_0.finished ==> r == Ok::<usize, ZipError>(0),
            old(self).reader is Deflate && r is Ok && r->Ok_0 == 0 && old(buf)@.len() > 0
                ==> final(self).reader->Deflate_0.finished,
            old(self).reader is Deflate && r is Err ==> r == Err::<usize, ZipError>(ZipError::Io(IoFault::CorruptDeflate)),
    {
        self.reader.read(buf)
    }

    pub fn seek(&mut self, pos: SeekPos) -> (r: ZipResult<u64>)
        requires
            old(self).reader.wf(),
        ensures
            final(self).reader.wf(),
            final(self).data == old(self).data,
            old(self).reader is Deflate ==> r == Err::<u64, ZipError>(ZipError::Io(IoFault::Unsupported)),
            old(self).reader is Stored ==> final(self).reader is Stored && ({
                let rd = old(self).reader->Stored_0;
                let t = crate::plaintext::seek_target(pos, rd.length(), rd.position as int);
                &&& 0 <= t <= rd.length() ==> r == Ok::<u64, ZipError>(t as u64)
                &&& !(0 <= t <= rd.length()) ==> r == Err::<u64, ZipError>(ZipError::Io(IoFault::InvalidSeek))
            }),
    {
        self.reader.seek(pos)
    }
}

} // verus!
