//! Fixed binary records of the ZIP format, decoded from a byte image.

use vstd::prelude::*;
use crate::bytes::{avail, fits, le16, le32, le64, read_u16, read_u32, read_u64};
use crate::result::{ZipError, ZipResult, eof_error};

verus! {

pub const LOCAL_FILE_HEADER_SIGNATURE: u32 = 0x04034b50;
pub const CENTRAL_DIRECTORY_HEADER_SIGNATURE: u32 = 0x02014b50;
pub const CENTRAL_DIRECTORY_END_SIGNATURE: u32 = 0x06054b50;
pub const ZIP64_CENTRAL_DIRECTORY_END_SIGNATURE: u32 = 0x06064b50;
pub const ZIP64_CENTRAL_DIRECTORY_END_LOCATOR_SIGNATURE: u32 = 0x07064b50;

/// Value of a 32-bit size or offset field that defers to its ZIP64 counterpart.
pub const ZIP64_BYTES_THR: u64 = 0xFFFF_FFFF;

/// Size of the fixed part of the end-of-central-directory record.
pub const EOCD_HEADER_SIZE: u64 = 22;
/// Size of the ZIP64 locator.
pub const ZIP64_LOCATOR_SIZE: u64 = 20;
/// Size of the ZIP64 end record without its extensible data.
pub const ZIP64_END_SIZE: u64 = 56;

/// The bytes of `s` from `p`, `n` of them.
pub open spec fn bytes_at(s: Seq<u8>, p: int, n: int) -> Seq<u8> {
    s.subrange(p, p + n)
}

/// A copy of `n` bytes of the image starting at `pos`.
pub fn copy_bytes(data: &[u8], pos: u64, n: u64) -> (r: Vec<u8>)
    requires
        avail(data@, pos as int, n as int),
    ensures
        r@ == bytes_at(data@, pos as int, n as int),
{
    let _len = data.len();
    let sub = vstd::slice::slice_subrange(data, pos as usize, (pos + n) as usize);
    vstd::slice::slice_to_vec(sub)
}

pub struct CentralDirectoryEnd {
    pub disk_number: u16,
    pub disk_with_central_directory: u16,
    pub number_of_files_on_this_disk: u16,
    pub number_of_files: u16,
    pub central_directory_size: u32,
    pub central_directory_offset: u32,
    pub zip_file_comment: Vec<u8>,
}

/// Whether a complete end-of-central-directory record, comment included, starts at `p`.
pub open spec fn eocd_well_formed(s: Seq<u8>, p: int) -> bool {
    &&& avail(s, p, 22)
    &&& le32(s, p) == CENTRAL_DIRECTORY_END_SIGNATURE
    &&& avail(s, p + 22, le16(s, p + 20))
}

/// The lowest position at which the end record is looked for in an image of `len` bytes.
pub open spec fn eocd_search_bound(len: int) -> int {
    if len >= 22 + 65535 {
        len - 22 - 65535
    } else {
        0
    }
}

/// `p` is the last position, within the search window, that holds the end record's signature.
pub open spec fn is_last_eocd_signature(s: Seq<u8>, p: int) -> bool {
    &&& s.len() >= 22
    &&& eocd_search_bound(s.len() as int) <= p <= s.len() - 22
    &&& le32(s, p) == CENTRAL_DIRECTORY_END_SIGNATURE
    &&& forall|q: int| p < q <= s.len() - 22 ==> le32(s, q) != CENTRAL_DIRECTORY_END_SIGNATURE
}

/// No position of the search window holds the end record's signature.
pub open spec fn no_eocd_signature(s: Seq<u8>) -> bool {
    forall|q: int|
        eocd_search_bound(s.len() as int) <= q <= s.len() - 22 ==> le32(s, q)
            != CENTRAL_DIRECTORY_END_SIGNATURE
}

impl CentralDirectoryEnd {
    /// The record holds exactly the fields stored at `p`.
    pub open spec fn decoded_from(&self, s: Seq<u8>, p: int) -> bool {
        &&& self.disk_number == le16(s, p + 4)
        &&& self.disk_with_central_directory == le16(s, p + 6)
        &&& self.number_of_files_on_this_disk == le16(s, p + 8)
        &&& self.number_of_files == le16(s, p + 10)
        &&& self.central_directory_size == le32(s, p + 12)
        &&& self.central_directory_offset == le32(s, p + 16)
        &&& self.zip_file_comment@ == bytes_at(s, p + 22, le16(s, p + 20))
    }

    /// Some field holds its saturated value, so the ZIP64 record carries the real one.
    pub open spec fn spec_record_too_small(&self) -> bool {
        ||| self.disk_number == 0xFFFF
        ||| self.disk_with_central_directory == 0xFFFF
        ||| self.number_of_files_on_this_disk == 0xFFFF
        ||| self.number_of_files == 0xFFFF
        ||| self.central_directory_size == 0xFFFFFFFF
        ||| self.central_directory_offset == 0xFFFFFFFF
    }

    pub fn record_too_small(&self) -> (r: bool)
        ensures
            r == self.spec_record_too_small(),
    {
        self.disk_number == 0xFFFF || self.disk_with_central_directory == 0xFFFF
            || self.number_of_files_on_this_disk == 0xFFFF || self.number_of_files == 0xFFFF
            || self.central_directory_size == 0xFFFFFFFF || self.central_directory_offset
            == 0xFFFFFFFF
    }

    /// Decodes the end-of-central-directory record at `pos`.
    pub fn parse(data: &[u8], pos: u64) -> (r: ZipResult<CentralDirectoryEnd>)
        ensures
            !avail(data@, pos as int, 4) ==> r == Err::<CentralDirectoryEnd, ZipError>(
                eof_error(),
            ),
            avail(data@, pos as int, 4) && le32(data@, pos as int)
                != CENTRAL_DIRECTORY_END_SIGNATURE ==> r is Err && r->Err_0 is InvalidArchive,
            avail(data@, pos as int, 4) && le32(data@, pos as int)
                == CENTRAL_DIRECTORY_END_SIGNATURE && !eocd_well_formed(data@, pos as int)
                ==> r == Err::<CentralDirectoryEnd, ZipError>(eof_error()),
            eocd_well_formed(data@, pos as int) <==> r is Ok,
            r is Ok ==> r->Ok_0.decoded_from(data@, pos as int),
    {
        let magic = read_u32(data, pos)?;
        if magic != CENTRAL_DIRECTORY_END_SIGNATURE {
            return Err(ZipError::InvalidArchive("Invalid digital signature header"));
        }
        if !fits(data, pos, EOCD_HEADER_SIZE) {
            return Err(ZipError::Io(crate::result::IoFault::UnexpectedEof));
        }
        let disk_number = read_u16(data, pos + 4)?;
        let disk_with_central_directory = read_u16(data, pos + 6)?;
        let number_of_files_on_this_disk = read_u16(data, pos + 8)?;
        let number_of_files = read_u16(data, pos + 10)?;
        let central_directory_size = read_u32(data, pos + 12)?;
        let central_directory_offset = read_u32(data, pos + 16)?;
        let zip_file_comment_length = read_u16(data, pos + 20)? as u64;
        if !fits(data, pos + 22, zip_file_comment_length) {
            return Err(ZipError::Io(crate::result::IoFault::UnexpectedEof));
        }
        let zip_file_comment = copy_bytes(data, pos + 22, zip_file_comment_length);
        Ok(CentralDirectoryEnd {
            disk_number,
            disk_with_central_directory,
            number_of_files_on_this_disk,
            number_of_files,
            central_directory_size,
            central_directory_offset,
            zip_file_comment,
        })
    }

    /// Finds the end-of-central-directory record by scanning backward from the end of the
    /// image, and returns it with its position.
    pub fn find_and_parse(data: &[u8]) -> (r: ZipResult<(CentralDirectoryEnd, u64)>)
        ensures
            data@.len() < 22 ==> r is Err && r->Err_0 is InvalidArchive,
            data@.len() >= 22 && no_eocd_signature(data@) ==> r is Err && r->Err_0 is InvalidArchive,
            r is Ok ==> is_last_eocd_signature(data@, r->Ok_0.1 as int),
            forall|p: int|
                is_last_eocd_signature(data@, p) ==> {
                    &&& (r is Ok <==> eocd_well_formed(data@, p))
                    &&& (r is Ok ==> r->Ok_0.1 == p && r->Ok_0.0.decoded_from(data@, p))
                    &&& (!eocd_well_formed(data@, p) ==> r == Err::<(CentralDirectoryEnd, u64), ZipError>(eof_error()))
                },
    {
        let file_length = data.len() as u64;
        let search_upper_bound = file_length.saturating_sub(EOCD_HEADER_SIZE + 65535);
        if file_length < EOCD_HEADER_SIZE {
            return Err(ZipError::InvalidArchive("Invalid zip header"));
        }
        let mut pos: u64 = file_length - EOCD_HEADER_SIZE;
        while pos >= search_upper_bound
            invariant
                file_length == data@.len(),
                file_length >= 22,
                search_upper_bound == eocd_search_bound(file_length as int),
                pos <= file_length - 22,
                forall|q: int|
                    pos < q <= file_length - 22 ==> le32(data@, q) != CENTRAL_DIRECTORY_END_SIGNATURE,
            decreases pos,
        {
            let word = read_u32(data, pos)?;
            if word == CENTRAL_DIRECTORY_END_SIGNATURE {
                return match CentralDirectoryEnd::parse(data, pos) {
                    Ok(cde) => Ok((cde, pos)),
                    Err(e) => Err(e),
                };
            }
            if pos == 0 {
                return Err(ZipError::InvalidArchive("Could not find central directory end"));
            }
            pos = pos - 1;
        }
        Err(ZipError::InvalidArchive("Could not find central directory end"))
    }
}

pub struct Zip64CentralDirectoryEndLocator {
    pub disk_with_central_directory: u32,
    pub end_of_central_directory_offset: u64,
    pub number_of_disks: u32,
}

impl Zip64CentralDirectoryEndLocator {
    /// The locator holds exactly the fields stored at `p`.
    pub open spec fn decoded_from(&self, s: Seq<u8>, p: int) -> bool {
        &&& self.disk_with_central_directory == le32(s, p + 4)
        &&& self.end_of_central_directory_offset == le64(s, p + 8)
        &&& self.number_of_disks == le32(s, p + 16)
    }

    /// Decodes the ZIP64 locator at `pos`.
    pub fn parse(data: &[u8], pos: u64) -> (r: ZipResult<Zip64CentralDirectoryEndLocator>)
        ensures
            !avail(data@, pos as int, 4) ==> r == Err::<Zip64CentralDirectoryEndLocator, ZipError>(eof_error()),
            avail(data@, pos as int, 4) && le32(data@, pos as int)
                != ZIP64_CENTRAL_DIRECTORY_END_LOCATOR_SIGNATURE ==> r is Err && r->Err_0 is InvalidArchive,
            avail(data@, pos as int, 4) && le32(data@, pos as int)
                == ZIP64_CENTRAL_DIRECTORY_END_LOCATOR_SIGNATURE ==> (r is Ok <==> avail(data@, pos as int, 20)),
            avail(data@, pos as int, 4) && le32(data@, pos as int)
                == ZIP64_CENTRAL_DIRECTORY_END_LOCATOR_SIGNATURE && !avail(data@, pos as int, 20)
                ==> r == Err::<Zip64CentralDirectoryEndLocator, ZipError>(eof_error()),
            r is Ok ==> le32(data@, pos as int) == ZIP64_CENTRAL_DIRECTORY_END_LOCATOR_SIGNATURE
                && r->Ok_0.decoded_from(data@, pos as int),
    {
        let magic = read_u32(data, pos)?;
        if magic != ZIP64_CENTRAL_DIRECTORY_END_LOCATOR_SIGNATURE {
            return Err(ZipError::InvalidArchive("Invalid zip64 locator digital signature header"));
        }
        if !fits(data, pos, ZIP64_LOCATOR_SIZE) {
            return Err(ZipError::Io(crate::result::IoFault::UnexpectedEof));
        }
        let disk_with_central_directory = read_u32(data, pos + 4)?;
        let end_of_central_directory_offset = read_u64(data, pos + 8)?;
        let number_of_disks = read_u32(data, pos + 16)?;
        Ok(Zip64CentralDirectoryEndLocator {
            disk_with_central_directory,
            end_of_central_directory_offset,
            number_of_disks,
        })
    }
}

pub struct Zip64CentralDirectoryEnd {
    pub version_made_by: u16,
    pub version_needed_to_extract: u16,
    pub disk_number: u32,
    pub disk_with_central_directory: u32,
    pub number_of_files_on_this_disk: u64,
    pub number_of_files: u64,
    pub central_directory_size: u64,
    pub central_directory_offset: u64,
}

/// `p` is the first position from `nominal` on that holds the ZIP64 end record's signature,
/// and it lies within `[nominal, bound]`.
pub open spec fn is_first_zip64_signature(s: Seq<u8>, nominal: int, bound: int, p: int) -> bool {
    &&& nominal <= p <= bound
    &&& avail(s, p, 4)
    &&& le32(s, p) == ZIP64_CENTRAL_DIRECTORY_END_SIGNATURE
    &&& forall|q: int|
        nominal <= q < p ==> avail(s, q, 4) && le32(s, q) != ZIP64_CENTRAL_DIRECTORY_END_SIGNATURE
}

/// No position of `[nominal, bound]` holds the ZIP64 end record's signature, and all of them
/// can be read.
pub open spec fn no_zip64_signature(s: Seq<u8>, nominal: int, bound: int) -> bool {
    forall|q: int| #![trigger avail(s, q, 4)]
        nominal <= q <= bound ==> avail(s, q, 4) && le32(s, q) != ZIP64_CENTRAL_DIRECTORY_END_SIGNATURE
}

/// The forward scan from `nominal` reaches `p`, within `bound`, without meeting the signature,
/// and the image ends there.
pub open spec fn zip64_scan_runs_out(s: Seq<u8>, nominal: int, bound: int, p: int) -> bool {
    &&& nominal <= p <= bound
    &&& !avail(s, p, 4)
    &&& forall|q: int| #![trigger avail(s, q, 4)]
        nominal <= q < p ==> avail(s, q, 4) && le32(s, q) != ZIP64_CENTRAL_DIRECTORY_END_SIGNATURE
}

impl Zip64CentralDirectoryEnd {
    /// The record holds exactly the fields stored at `p`.
    pub open spec fn decoded_from(&self, s: Seq<u8>, p: int) -> bool {
        &&& self.version_made_by == le16(s, p + 12)
        &&& self.version_needed_to_extract == le16(s, p + 14)
        &&& self.disk_number == le32(s, p + 16)
        &&& self.disk_with_central_directory == le32(s, p + 20)
        &&& self.number_of_files_on_this_disk == le64(s, p + 24)
        &&& self.number_of_files == le64(s, p + 32)
        &&& self.central_directory_size == le64(s, p + 40)
        &&& self.central_directory_offset == le64(s, p + 48)
    }

    /// Decodes the fixed part of the ZIP64 end record whose signature stands at `pos`.
    fn parse_at(data: &[u8], pos: u64) -> (r: ZipResult<Zip64CentralDirectoryEnd>)
        ensures
            avail(data@, pos as int, 56) <==> r is Ok,
            r is Ok ==> r->Ok_0.decoded_from(data@, pos as int),
            r is Err ==> r->Err_0 == eof_error(),
    {
        let _len = data.len();
        if !fits(data, pos, ZIP64_END_SIZE) {
            return Err(ZipError::Io(crate::result::IoFault::UnexpectedEof));
        }
        let _record_size = read_u64(data, pos + 4)?;
        let version_made_by = read_u16(data, pos + 12)?;
        let version_needed_to_extract = read_u16(data, pos + 14)?;
        let disk_number = read_u32(data, pos + 16)?;
        let disk_with_central_directory = read_u32(data, pos + 20)?;
        let number_of_files_on_this_disk = read_u64(data, pos + 24)?;
        let number_of_files = read_u64(data, pos + 32)?;
        let central_directory_size = read_u64(data, pos + 40)?;
        let central_directory_offset = read_u64(data, pos + 48)?;
        Ok(Zip64CentralDirectoryEnd {
            version_made_by,
            version_needed_to_extract,
            disk_number,
            disk_with_central_directory,
            number_of_files_on_this_disk,
            number_of_files,
            central_directory_size,
            central_directory_offset,
        })
    }

    /// Scans forward from `nominal_offset` to `search_upper_bound` for the ZIP64 end record,
    /// and returns it with its distance from `nominal_offset`.
    pub fn find_and_parse(data: &[u8], nominal_offset: u64, search_upper_bound: u64) -> (r: ZipResult<(Zip64CentralDirectoryEnd, u64)>)
        ensures
            r is Ok ==> {
                let p = nominal_offset + r->Ok_0.1;
                &&& is_first_zip64_signature(data@, nominal_offset as int, search_upper_bound as int, p)
                &&& r->Ok_0.0.decoded_from(data@, p)
            },
            forall|p: int|
                is_first_zip64_signature(data@, nominal_offset as int, search_upper_bound as int, p)
                    && avail(data@, p, 56) ==> r is Ok,
            no_zip64_signature(data@, nominal_offset as int, search_upper_bound as int) ==> r is Err
                && r->Err_0 is InvalidArchive,
            forall|p: int|
                zip64_scan_runs_out(data@, nominal_offset as int, search_upper_bound as int, p)
                    ==> r == Err::<(Zip64CentralDirectoryEnd, u64), ZipError>(eof_error()),
            forall|p: int|
                is_first_zip64_signature(data@, nominal_offset as int, search_upper_bound as int, p)
                    && !avail(data@, p, 56) ==> r == Err::<(Zip64CentralDirectoryEnd, u64), ZipError>(eof_error()),
            r is Err ==> r->Err_0 is InvalidArchive || r->Err_0 == eof_error(),
    {
        let mut pos: u64 = nominal_offset;
        while pos <= search_upper_bound
            invariant
                nominal_offset <= pos,
                forall|q: int| #![trigger avail(data@, q, 4)] nominal_offset <= q < pos ==> avail(data@, q, 4)
                    && le32(data@, q) != ZIP64_CENTRAL_DIRECTORY_END_SIGNATURE,
            decreases search_upper_bound - pos + 1,
        {
            if !fits(data, pos, 4) {
                return Err(ZipError::Io(crate::result::IoFault::UnexpectedEof));
            }
            let word = read_u32(data, pos)?;
            if word == ZIP64_CENTRAL_DIRECTORY_END_SIGNATURE {
                let archive_offset = pos - nominal_offset;
                let record = Zip64CentralDirectoryEnd::parse_at(data, pos)?;
                return Ok((record, archive_offset));
            }
            assert(avail(data@, pos as int, 4) && le32(data@, pos as int) != ZIP64_CENTRAL_DIRECTORY_END_SIGNATURE);
            if pos == search_upper_bound {
                return Err(ZipError::InvalidArchive("Could not find ZIP64 central directory end"));
            }
            pos = pos + 1;
        }
        Err(ZipError::InvalidArchive("Could not find ZIP64 central directory end"))
    }
}

#[derive(Clone, Copy, Debug, PartialEq, Eq, Structural)]
pub enum CompressionMethod {
    Stored,
    Deflate,
    Unsupported(u16),
}

/// The method that a stored method code stands for.
pub open spec fn method_of(val: u16) -> CompressionMethod {
    if val == 0 {
        CompressionMethod::Stored
    } else if val == 8 {
        CompressionMethod::Deflate
    } else {
        CompressionMethod::Unsupported(val)
    }
}

/// The code that is stored for a method.
pub open spec fn code_of(m: CompressionMethod) -> u16 {
    match m {
        CompressionMethod::Stored => 0,
        CompressionMethod::Deflate => 8,
        CompressionMethod::Unsupported(v) => v,
    }
}

impl CompressionMethod {
    pub fn from_u16(val: u16) -> (r: CompressionMethod)
        ensures
            r == method_of(val),
    {
        match val {
            0 => CompressionMethod::Stored,
            8 => CompressionMethod::Deflate,
            v => CompressionMethod::Unsupported(v),
        }
    }

    pub fn to_u16(self) -> (r: u16)
        ensures
            r == code_of(self),
    {
        match self {
            CompressionMethod::Stored => 0,
            CompressionMethod::Deflate => 8,
            CompressionMethod::Unsupported(v) => v,
        }
    }
}

/// Every code is given back unchanged by decoding and then encoding it.
pub proof fn lemma_method_code_round_trip(val: u16)
    ensures
        code_of(method_of(val)) == val,
{
}

#[derive(Clone, Copy, Debug, PartialEq, Eq, Structural)]
pub enum AesVendorVersion {
    Ae1,
    Ae2,
}

#[derive(Clone, Copy, Debug, PartialEq, Eq, Structural)]
pub enum AesMode {
    Aes128,
    Aes192,
    Aes256,
}

} // verus!
