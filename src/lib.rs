//! A read-only ZIP archive reader over an in-memory image of the archive file: it finds the
//! end-of-central-directory record (and the ZIP64 records), indexes the entries by name, and
//! opens each entry as a stream that passes stored bytes through or decodes DEFLATE.

pub mod bytes;
pub mod result;
pub mod format;
pub mod extra;
pub mod cp437;
pub mod zip_file;
pub mod plaintext;
pub mod deflate;
pub mod zip_archive;

use vstd::prelude::*;
use crate::result::ZipResult;

verus! {

/// A source of named files that an application mounts and reads through.
pub trait FileSystem {
    fn mount(path: &str, priority: u32) -> bool;

    fn exist(file_name: &str) -> bool;

    /// The bytes of the named file.
    fn open(file_name: &str) -> ZipResult<Vec<u8>>;
}

/// A file system that layers mounted sources.
pub struct VirtualFileSystem {}

} // verus!
