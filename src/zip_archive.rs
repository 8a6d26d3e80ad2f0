//! An archive: its image, the location of its central directory, and the index of its
//! entries by name.

use vstd::prelude::*;
use crate::bytes::{avail, le32, le64, read_u32};
use crate::format::{
    CentralDirectoryEnd, LOCAL_FILE_HEADER_SIGNATURE, Zip64CentralDirectoryEnd,
    Zip64CentralDirectoryEndLocator, ZIP64_CENTRAL_DIRECTORY_END_LOCATOR_SIGNATURE,
    eocd_well_formed, is_first_zip64_signature, no_zip64_signature, zip64_scan_runs_out, is_last_eocd_signature,
    no_eocd_signature, CENTRAL_DIRECTORY_HEADER_SIGNATURE,
};
use crate::result::{ZipError, ZipResult, eof_error};
use crate::zip_file::{
    ZipFile, ZipFileData, ZipFileReader, central_header_complete, find_reader,
    header_outcome_ok, reader_outcome,
};

verus! {

/// No two entries share a name.
pub open spec fn names_unique(v: Seq<ZipFileData>) -> bool {
    forall|i: int, j: int|
        0 <= i < v.len() && 0 <= j < v.len() && i != j ==> v[i].file_name@ != v[j].file_name@
}

/// Some entry has the name `n`.
pub open spec fn holds_name(v: Seq<ZipFileData>, n: Seq<char>) -> bool {
    exists|i: int| 0 <= i < v.len() && v[i].file_name@ == n
}

/// The entry named `n` is `e`.
pub open spec fn entry_named(v: Seq<ZipFileData>, n: Seq<char>, e: ZipFileData) -> bool {
    exists|i: int| 0 <= i < v.len() && v[i].file_name@ == n && v[i] == e
}

/// The index of the entry named `name`, if any.
fn find_entry(entries: &Vec<ZipFileData>, name: &String) -> (r: Option<usize>)
    ensures
        r is Some ==> r->Some_0 < entries@.len() && entries@[r->Some_0 as int].file_name@ == name@,
        r is None ==> !holds_name(entries@, name@),
{
    let mut i: usize = 0;
    while i < entries.len()
        invariant
            i <= entries@.len(),
            forall|k: int| 0 <= k < i ==> entries@[k].file_name@ != name@,
        decreases entries@.len() - i,
    {
        if entries[i].file_name == *name {
            return Some(i);
        }
        i = i + 1;
    }
    None
}

/// Adds `e` to the index; an entry of the same name is replaced.
pub fn insert_entry(entries: &mut Vec<ZipFileData>, e: ZipFileData)
    requires
        names_unique(old(entries)@),
    ensures
        names_unique(final(entries)@),
        entry_named(final(entries)@, e.file_name@, e),
        forall|n: Seq<char>|
            n != e.file_name@ ==> (holds_name(final(entries)@, n) <==> holds_name(old(entries)@, n)),
        forall|n: Seq<char>, x: ZipFileData|
            n != e.file_name@ ==> (entry_named(final(entries)@, n, x) <==> entry_named(
                old(entries)@,
                n,
                x,
            )),
        final(entries)@.len() >= old(entries)@.len(),
        forall|i: int|
            0 <= i < old(entries)@.len() ==> final(entries)@[i] == old(entries)@[i] || final(entries)@[i] == e,
        forall|i: int| old(entries)@.len() <= i < final(entries)@.len() ==> final(entries)@[i] == e,
{
    let ghost name = e.file_name@;
    match find_entry(entries, &e.file_name) {
        Some(i) => {
            entries.set(i, e);
            assert(entries@[i as int] == e);
            assert forall|n: Seq<char>| n != name implies (holds_name(entries@, n)
                <==> holds_name(old(entries)@, n)) by {
                if holds_name(old(entries)@, n) {
                    let k = choose|k: int| 0 <= k < old(entries)@.len() && old(entries)@[k].file_name@ == n;
                    assert(entries@[k].file_name@ == n);
                }
                if holds_name(entries@, n) {
                    let k = choose|k: int| 0 <= k < entries@.len() && entries@[k].file_name@ == n;
                    assert(old(entries)@[k].file_name@ == n);
                }
            }
            assert forall|n: Seq<char>, x: ZipFileData| n != name implies (entry_named(
                entries@,
                n,
                x,
            ) <==> entry_named(old(entries)@, n, x)) by {
                if entry_named(old(entries)@, n, x) {
                    let k = choose|k: int| 0 <= k < old(entries)@.len() && old(entries)@[k].file_name@ == n && old(entries)@[k] == x;
                    assert(entries@[k] == x);
                }
                if entry_named(entries@, n, x) {
                    let k = choose|k: int| 0 <= k < entries@.len() && entries@[k].file_name@ == n && entries@[k] == x;
                    assert(old(entries)@[k] == x);
                }
            }
        },
        None => {
            entries.push(e);
            let ghost last = (entries@.len() - 1) as int;
            assert(entries@[last] == e);
            assert forall|n: Seq<char>| n != name implies (holds_name(entries@, n)
                <==> holds_name(old(entries)@, n)) by {
                if holds_name(old(entries)@, n) {
                    let k = choose|k: int| 0 <= k < old(entries)@.len() && old(entries)@[k].file_name@ == n;
                    assert(entries@[k].file_name@ == n);
                }
                if holds_name(entries@, n) {
                    let k = choose|k: int| 0 <= k < entries@.len() && entries@[k].file_name@ == n;
                    assert(old(entries)@[k].file_name@ == n);
                }
            }
            assert forall|n: Seq<char>, x: ZipFileData| n != name implies (entry_named(
                entries@,
                n,
                x,
            ) <==> entry_named(old(entries)@, n, x)) by {
                if entry_named(old(entries)@, n, x) {
                    let k = choose|k: int| 0 <= k < old(entries)@.len() && old(entries)@[k].file_name@ == n && old(entries)@[k] == x;
                    assert(entries@[k] == x);
                }
                if entry_named(entries@, n, x) {
                    let k = choose|k: int| 0 <= k < entries@.len() && entries@[k].file_name@ == n && entries@[k] == x;
                    assert(old(entries)@[k] == x);
                }
            }
        },
    }
}

/// Where the ZIP64 locator stands in an image of `len` bytes whose end record carries a
/// comment of `clen` bytes.
pub open spec fn locator_pos(len: int, clen: int) -> int {
    len - 42 - clen
}

/// The image holds a ZIP64 locator at its fixed place before the end record.
pub open spec fn has_zip64_locator(s: Seq<u8>, clen: int) -> bool {
    &&& locator_pos(s.len() as int, clen) >= 0
    &&& le32(s, locator_pos(s.len() as int, clen)) == ZIP64_CENTRAL_DIRECTORY_END_LOCATOR_SIGNATURE
}

/// Archive offset, directory start and entry count from the end record alone, when the
/// declared size and offset fit before the end record at `cde_start`.
pub open spec fn legacy_counts(footer: CentralDirectoryEnd, cde_start: u64) -> Option<(u64, u64, u64)> {
    let size = footer.central_directory_size as int;
    let offset = footer.central_directory_offset as int;
    if cde_start >= size + offset {
        let archive_offset = cde_start - size - offset;
        Some((archive_offset as u64, (offset + archive_offset) as u64, footer.number_of_files_on_this_disk as u64))
    } else {
        None
    }
}

/// What the ZIP64 end record found at `p`, for a locator that declared `nominal`, gives.
pub open spec fn zip64_counts_outcome(s: Seq<u8>, nominal: int, p: int, r: ZipResult<(u64, u64, u64)>) -> bool {
    let archive_offset = p - nominal;
    let offset = le64(s, p + 48);
    if le32(s, p + 16) != le32(s, p + 20) {
        r == Err::<(u64, u64, u64), ZipError>(ZipError::UnsupportedArchive)
    } else if offset + archive_offset > u64::MAX {
        r is Err && r->Err_0 is InvalidArchive
    } else {
        r == Ok::<(u64, u64, u64), ZipError>(
            (archive_offset as u64, (offset + archive_offset) as u64, le64(s, p + 32) as u64),
        )
    }
}

/// The directory's place, by the ZIP64 records that the locator points to.
pub open spec fn zip64_directory_outcome(
    s: Seq<u8>,
    footer: CentralDirectoryEnd,
    cde_start: u64,
    r: ZipResult<(u64, u64, u64)>,
) -> bool {
    let l = locator_pos(s.len() as int, footer.zip_file_comment@.len() as int);
    let nominal = le64(s, l + 8);
    if !footer.spec_record_too_small() && footer.disk_number != le32(s, l + 4) {
        r == Err::<(u64, u64, u64), ZipError>(ZipError::UnsupportedArchive)
    } else if cde_start < 60 {
        r is Err && r->Err_0 is InvalidArchive
    } else {
        &&& forall|p: int|
            is_first_zip64_signature(s, nominal, cde_start - 60, p) && avail(s, p, 56)
                ==> zip64_counts_outcome(s, nominal, p, r)
        &&& no_zip64_signature(s, nominal, cde_start - 60) ==> r is Err && r->Err_0 is InvalidArchive
        &&& forall|p: int|
            #[trigger] zip64_scan_runs_out(s, nominal, cde_start - 60, p) ==> r == Err::<(u64, u64, u64), ZipError>(eof_error())
        &&& forall|p: int|
            #[trigger] is_first_zip64_signature(s, nominal, cde_start - 60, p) && !avail(s, p, 56)
                ==> r == Err::<(u64, u64, u64), ZipError>(eof_error())
    }
}

/// The directory's place, by the end record and, where present, the ZIP64 records.
#[verifier::opaque]
pub open spec fn directory_counts_outcome(
    s: Seq<u8>,
    footer: CentralDirectoryEnd,
    cde_start: u64,
    r: ZipResult<(u64, u64, u64)>,
) -> bool {
    let clen = footer.zip_file_comment@.len() as int;
    if !has_zip64_locator(s, clen) {
        match legacy_counts(footer, cde_start) {
            Some(t) => r == Ok::<(u64, u64, u64), ZipError>(t),
            None => r is Err && r->Err_0 is InvalidArchive,
        }
    } else {
        zip64_directory_outcome(s, footer, cde_start, r)
    }
}

/// Without ZIP64 records, the directory starts `archive_offset` bytes after its declared
/// offset, and it ends no later than where the end record starts.
pub proof fn lemma_legacy_directory_layout(
    s: Seq<u8>,
    footer: CentralDirectoryEnd,
    cde_start: u64,
    archive_offset: u64,
    directory_start: u64,
    number_of_files: u64,
)
    requires
        !has_zip64_locator(s, footer.zip_file_comment@.len() as int),
        directory_counts_outcome(
            s,
            footer,
            cde_start,
            Ok::<(u64, u64, u64), ZipError>((archive_offset, directory_start, number_of_files)),
        ),
    ensures
        archive_offset + footer.central_directory_offset == directory_start,
        directory_start + footer.central_directory_size <= cde_start,
        number_of_files == footer.number_of_files_on_this_disk,
{
    reveal(directory_counts_outcome);
}

/// The ZIP64 locator at its fixed place before the end record, when the image holds one there.
/// (A signature that does not match means there is none; the whole locator is then always
/// within the image.)
fn find_locator(data: &[u8], comment_len: u64) -> (r: Option<Zip64CentralDirectoryEndLocator>)
    ensures
        r is Some <==> has_zip64_locator(data@, comment_len as int),
        r is Some ==> r->Some_0.decoded_from(data@, locator_pos(data@.len() as int, comment_len as int)),
{
    let file_length = data.len() as u64;
    if file_length >= 42 && file_length - 42 >= comment_len {
        let locator_at = file_length - 42 - comment_len;
        assert(avail(data@, locator_at as int, 20));
        match Zip64CentralDirectoryEndLocator::parse(data, locator_at) {
            Ok(loc) => Some(loc),
            Err(_) => None,
        }
    } else {
        None
    }
}

/// Resolves the directory's place from the ZIP64 end record that `locator64` points to.
fn zip64_directory_counts(
    data: &[u8],
    footer: &CentralDirectoryEnd,
    cde_start_pos: u64,
    locator64: &Zip64CentralDirectoryEndLocator,
) -> (r: ZipResult<(u64, u64, u64)>)
    requires
        locator64.decoded_from(data@, locator_pos(data@.len() as int, footer.zip_file_comment@.len() as int)),
    ensures
        zip64_directory_outcome(data@, *footer, cde_start_pos, r),
{
    if !footer.record_too_small() && footer.disk_number as u32
        != locator64.disk_with_central_directory {
        return Err(ZipError::UnsupportedArchive);
    }
    if cde_start_pos < 60 {
        return Err(ZipError::InvalidArchive("File cannot contain ZIP64 central directory end"));
    }
    let search_upper_bound = cde_start_pos - 60;
    let found = Zip64CentralDirectoryEnd::find_and_parse(
        data,
        locator64.end_of_central_directory_offset,
        search_upper_bound,
    );
    let (footer64, archive_offset) = match found {
        Ok(x) => x,
        Err(e) => {
            let ghost l = locator_pos(data@.len() as int, footer.zip_file_comment@.len() as int);
            let ghost nominal = le64(data@, l + 8);
            assert(locator64.end_of_central_directory_offset == nominal);
            assert(!(!footer.spec_record_too_small() && footer.disk_number != le32(data@, l + 4)));
            assert(search_upper_bound as int == cde_start_pos - 60);
            assert forall|p: int|
                is_first_zip64_signature(data@, nominal, cde_start_pos - 60, p) && avail(data@, p, 56)
                    implies zip64_counts_outcome(data@, nominal, p, Err::<(u64, u64, u64), ZipError>(e)) by {
                assert(is_first_zip64_signature(data@, locator64.end_of_central_directory_offset as int, search_upper_bound as int, p));
            }
            assert forall|p: int| #[trigger] zip64_scan_runs_out(data@, nominal, cde_start_pos - 60, p)
                implies Err::<(u64, u64, u64), ZipError>(e) == Err::<(u64, u64, u64), ZipError>(eof_error()) by {
                assert(zip64_scan_runs_out(data@, locator64.end_of_central_directory_offset as int, search_upper_bound as int, p));
            }
            assert forall|p: int| #[trigger] is_first_zip64_signature(data@, nominal, cde_start_pos - 60, p) && !avail(data@, p, 56)
                implies Err::<(u64, u64, u64), ZipError>(e) == Err::<(u64, u64, u64), ZipError>(eof_error()) by {
                assert(is_first_zip64_signature(data@, locator64.end_of_central_directory_offset as int, search_upper_bound as int, p));
            }
            return Err(e);
        },
    };
    if footer64.disk_number != footer64.disk_with_central_directory {
        return Err(ZipError::UnsupportedArchive);
    }
    let directory_start = match footer64.central_directory_offset.checked_add(archive_offset) {
        Some(d) => d,
        None => {
            return Err(ZipError::InvalidArchive("Invalid central directory size or offset"));
        },
    };
    Ok((archive_offset, directory_start, footer64.number_of_files))
}

/// Position of the `k`-th central header of a directory that starts at `ds`.
#[verifier::opaque]
pub open spec fn header_pos(s: Seq<u8>, ds: int, k: nat) -> int
    decreases k,
{
    if k == 0 {
        ds
    } else {
        crate::zip_file::central_header_end(s, header_pos(s, ds, (k - 1) as nat))
    }
}

/// The central header at `p` decodes to an entry that is kept in the index.
#[verifier::opaque]
pub open spec fn header_kept(s: Seq<u8>, p: int, archive_offset: u64) -> bool {
    let res = crate::zip_file::header_resolved(s, p);
    &&& avail(s, p, 4)
    &&& le32(s, p) == CENTRAL_DIRECTORY_HEADER_SIGNATURE
    &&& central_header_complete(s, p)
    &&& crate::zip_file::stop_keeps_entry(res.1)
    &&& !(res.0.compression_method is Unsupported)
    &&& res.0.header_start + archive_offset <= u64::MAX
}

/// `e` is the decoding of the `j`-th header of the directory at `ds`, which is kept, and no
/// later kept header among the first `k` has the same name.
pub open spec fn last_decoding(s: Seq<u8>, ds: int, archive_offset: u64, k: nat, e: ZipFileData, j: nat) -> bool {
    &&& j < k
    &&& header_kept(s, header_pos(s, ds, j), archive_offset)
    &&& header_outcome_ok(s, header_pos(s, ds, j), archive_offset, Ok::<ZipFileData, ZipError>(e))
    &&& forall|j2: nat|
        #![trigger header_pos(s, ds, j2)]
        j < j2 < k && header_kept(s, header_pos(s, ds, j2), archive_offset)
            ==> crate::zip_file::header_name(s, header_pos(s, ds, j2)) != e.file_name@
}

/// `v` indexes the first `k` headers of the directory at `ds`: each entry is the decoding of a
/// kept header (the `w[i]`-th) that no later kept header of the same name follows, and every
/// kept header's name is present.
#[verifier::opaque]
pub open spec fn indexes_directory(s: Seq<u8>, ds: int, archive_offset: u64, k: nat, v: Seq<ZipFileData>, w: Seq<nat>) -> bool {
    &&& names_unique(v)
    &&& w.len() == v.len()
    &&& forall|i: int| 0 <= i < v.len() ==> #[trigger] last_decoding(s, ds, archive_offset, k, v[i], w[i])
    &&& forall|j: nat|
        #![trigger header_pos(s, ds, j)]
        j < k && header_kept(s, header_pos(s, ds, j), archive_offset) ==> holds_name(
            v,
            crate::zip_file::header_name(s, header_pos(s, ds, j)),
        )
}

/// The central header at `p` decodes, or names a compression method that is not supported:
/// either way the walk of the directory goes on past it.
pub open spec fn header_passes(s: Seq<u8>, p: int, archive_offset: u64) -> bool {
    let res = crate::zip_file::header_resolved(s, p);
    &&& avail(s, p, 4)
    &&& le32(s, p) == CENTRAL_DIRECTORY_HEADER_SIGNATURE
    &&& central_header_complete(s, p)
    &&& crate::zip_file::stop_keeps_entry(res.1)
    &&& (res.0.compression_method is Unsupported || res.0.header_start + archive_offset <= u64::MAX)
}

/// How a walk of `n` headers from `ds` ends: it succeeds exactly when every header passes;
/// otherwise it fails with the error of the first header that does not.
pub open spec fn walk_outcome(s: Seq<u8>, ds: int, archive_offset: u64, n: nat, succeeded: bool, err: ZipError) -> bool {
    &&& succeeded <==> forall|j: nat|
        #![trigger header_pos(s, ds, j)]
        j < n ==> header_passes(s, header_pos(s, ds, j), archive_offset)
    &&& !succeeded ==> exists|j: nat|
        #![trigger header_pos(s, ds, j)]
        j < n && (forall|j2: nat|
            #![trigger header_pos(s, ds, j2)]
            j2 < j ==> header_passes(s, header_pos(s, ds, j2), archive_offset))
            && !header_passes(s, header_pos(s, ds, j), archive_offset)
            && crate::zip_file::header_outcome(s, header_pos(s, ds, j), archive_offset, Err::<ZipFileData, ZipError>(err))
}

/// A header passes exactly when its decoding succeeds or names an unsupported method.
proof fn lemma_outcome_passes(s: Seq<u8>, p: int, archive_offset: u64, r: ZipResult<ZipFileData>)
    requires
        crate::zip_file::header_outcome(s, p, archive_offset, r),
    ensures
        header_passes(s, p, archive_offset) <==> (r is Ok || (r is Err && r->Err_0 is UnsupportedCompressionMethod)),
{
    reveal(header_outcome_ok);
}

/// A header that decodes to `d` is kept, and `d` carries its name.
proof fn lemma_decoded_is_kept(s: Seq<u8>, p: int, archive_offset: u64, d: ZipFileData)
    requires
        crate::zip_file::header_outcome(s, p, archive_offset, Ok::<ZipFileData, ZipError>(d)),
    ensures
        header_kept(s, p, archive_offset),
        header_outcome_ok(s, p, archive_offset, Ok::<ZipFileData, ZipError>(d)),
        d.file_name@ == crate::zip_file::header_name(s, p),
{
    reveal(header_outcome_ok);
    reveal(header_kept);
}

/// A header whose method is not supported is not kept.
proof fn lemma_unsupported_not_kept(s: Seq<u8>, p: int, archive_offset: u64, m: u16)
    requires
        crate::zip_file::header_outcome(s, p, archive_offset, Err::<ZipFileData, ZipError>(ZipError::UnsupportedCompressionMethod(m))),
    ensures
        !header_kept(s, p, archive_offset),
{
    reveal(header_outcome_ok);
    reveal(header_kept);
}

/// Indexing a kept header adds its entry, and keeps the index exact.
proof fn lemma_index_after_kept(
    s: Seq<u8>,
    ds: int,
    archive_offset: u64,
    k: nat,
    before: Seq<ZipFileData>,
    w: Seq<nat>,
    after: Seq<ZipFileData>,
    d: ZipFileData,
) -> (w2: Seq<nat>)
    requires
        indexes_directory(s, ds, archive_offset, k, before, w),
        header_kept(s, header_pos(s, ds, k), archive_offset),
        header_outcome_ok(s, header_pos(s, ds, k), archive_offset, Ok::<ZipFileData, ZipError>(d)),
        d.file_name@ == crate::zip_file::header_name(s, header_pos(s, ds, k)),
        names_unique(after),
        entry_named(after, d.file_name@, d),
        forall|n: Seq<char>| n != d.file_name@ ==> (holds_name(after, n) <==> holds_name(before, n)),
        after.len() >= before.len(),
        forall|i: int| 0 <= i < before.len() ==> after[i] == before[i] || after[i] == d,
        forall|i: int| before.len() <= i < after.len() ==> after[i] == d,
    ensures
        indexes_directory(s, ds, archive_offset, (k + 1) as nat, after, w2),
{
    reveal(indexes_directory);
    let dname = d.file_name@;
    let k1 = (k + 1) as nat;
    let w2 = Seq::new(after.len(), |i: int| if after[i] == d { k } else { w[i] });
    assert forall|m: int| 0 <= m < after.len() implies #[trigger] last_decoding(s, ds, archive_offset, k1, after[m], w2[m]) by {
        if after[m] == d {
            assert(last_decoding(s, ds, archive_offset, k1, after[m], k));
        } else {
            assert(after[m] == before[m]);
            assert(last_decoding(s, ds, archive_offset, k, before[m], w[m]));
            if after[m].file_name@ == dname {
                let q = choose|q: int| 0 <= q < after.len() && after[q].file_name@ == dname && after[q] == d;
                assert(q != m);
            }
            assert(last_decoding(s, ds, archive_offset, k1, after[m], w[m]));
        }
    }
    assert forall|j: nat|
        #![trigger header_pos(s, ds, j)]
        j < k1 && header_kept(s, header_pos(s, ds, j), archive_offset) implies holds_name(
            after,
            crate::zip_file::header_name(s, header_pos(s, ds, j)),
        ) by {
        let nm = crate::zip_file::header_name(s, header_pos(s, ds, j));
        if nm == dname {
            let q = choose|q: int| 0 <= q < after.len() && after[q].file_name@ == dname && after[q] == d;
            assert(after[q].file_name@ == nm);
        } else {
            assert(j < k);
            assert(holds_name(before, nm));
        }
    }
    w2
}

/// A header that is not kept leaves the index as it was, and exact.
proof fn lemma_index_after_skipped(s: Seq<u8>, ds: int, archive_offset: u64, k: nat, v: Seq<ZipFileData>, w: Seq<nat>)
    requires
        indexes_directory(s, ds, archive_offset, k, v, w),
        !header_kept(s, header_pos(s, ds, k), archive_offset),
    ensures
        indexes_directory(s, ds, archive_offset, (k + 1) as nat, v, w),
{
    reveal(indexes_directory);
    let k1 = (k + 1) as nat;
    assert forall|j: nat|
        #![trigger header_pos(s, ds, j)]
        j < k1 && header_kept(s, header_pos(s, ds, j), archive_offset) implies holds_name(
            v,
            crate::zip_file::header_name(s, header_pos(s, ds, j)),
        ) by {
        if j == k {
            assert(false);
        }
    }
    assert forall|m: int| 0 <= m < v.len() implies #[trigger] last_decoding(s, ds, archive_offset, k1, v[m], w[m]) by {
        assert(last_decoding(s, ds, archive_offset, k, v[m], w[m]));
    }
}

/// Decodes `number_of_files` central headers from `directory_start` on and indexes them by
/// name: an entry with an unsupported compression method is left out, and a later entry
/// replaces an earlier one of the same name. Any other failure ends the walk.
pub fn read_directory(data: &[u8], directory_start: u64, number_of_files: u64, archive_offset: u64) -> (r: ZipResult<Vec<ZipFileData>>)
    ensures
        r is Ok ==> exists|w: Seq<nat>| #[trigger] indexes_directory(data@, directory_start as int, archive_offset, number_of_files as nat, r->Ok_0@, w),
        r is Ok ==> names_unique(r->Ok_0@),
        walk_outcome(data@, directory_start as int, archive_offset, number_of_files as nat, r is Ok, r->Err_0),
        number_of_files > 0 && !(avail(data@, directory_start as int, 4) && le32(data@, directory_start as int)
            == CENTRAL_DIRECTORY_HEADER_SIGNATURE) ==> r is Err,
{
        let mut entries: Vec<ZipFileData> = Vec::new();
        let mut cursor: u64 = directory_start;
        let mut i: u64 = 0;
        let ghost mut w: Seq<nat> = Seq::empty();
        proof {
            reveal(header_pos);
            reveal(indexes_directory);
        }
        while i < number_of_files
            invariant
                i <= number_of_files,
                names_unique(entries@),
                forall|j: nat|
                    #![trigger header_pos(data@, directory_start as int, j)]
                    j < i ==> header_passes(data@, header_pos(data@, directory_start as int, j), archive_offset),
                cursor == header_pos(data@, directory_start as int, i as nat),
                indexes_directory(data@, directory_start as int, archive_offset, i as nat, entries@, w),
                i == 0 ==> cursor == directory_start,
                i > 0 ==> avail(data@, directory_start as int, 4) && le32(data@, directory_start as int)
                    == CENTRAL_DIRECTORY_HEADER_SIGNATURE,
            decreases number_of_files - i,
        {
            let ghost p = cursor as int;
            let ghost ds = directory_start as int;
            let ghost before = entries@;
            let ghost k = i as nat;
            assert(header_pos(data@, ds, (k + 1) as nat) == crate::zip_file::central_header_end(data@, header_pos(data@, ds, k))) by {
                reveal(header_pos);
            }
            let decoded = crate::zip_file::central_header_to_zip_file(data, &mut cursor, archive_offset);
            proof {
                lemma_outcome_passes(data@, p, archive_offset, decoded);
            }
            match decoded {
                Ok(d) => {
                    proof {
                        lemma_decoded_is_kept(data@, p, archive_offset, d);
                    }
                    let ghost dd = d;
                    insert_entry(&mut entries, d);
                    proof {
                        w = lemma_index_after_kept(data@, ds, archive_offset, k, before, w, entries@, dd);
                    }
                },
                Err(ZipError::UnsupportedCompressionMethod(m)) => {
                    proof {
                        lemma_unsupported_not_kept(data@, p, archive_offset, m);
                    }
                    proof {
                        lemma_index_after_skipped(data@, ds, archive_offset, k, entries@, w);
                    }
                },
                Err(e) => {
                    assert(!header_passes(data@, header_pos(data@, ds, k), archive_offset));
                    return Err(e);
                },
            }
            i = i + 1;
        }
        assert(indexes_directory(data@, directory_start as int, archive_offset, number_of_files as nat, entries@, w));
        let result: ZipResult<Vec<ZipFileData>> = Ok(entries);
        assert(result->Ok_0@ == entries@);
        assert(indexes_directory(data@, directory_start as int, archive_offset, number_of_files as nat, result->Ok_0@, w));
        result
}

/// What opening the archive gives once the end record `footer`, at `cde_start`, is found:
/// the disk check, then the directory's place, then the walk of its headers.
pub open spec fn open_outcome(s: Seq<u8>, footer: CentralDirectoryEnd, cde_start: u64, r: ZipResult<ZipArchive>) -> bool {
    if !footer.spec_record_too_small() && footer.disk_number != footer.disk_with_central_directory {
        r == Err::<ZipArchive, ZipError>(ZipError::UnsupportedArchive)
    } else {
        exists|c: ZipResult<(u64, u64, u64)>|
            #[trigger] directory_counts_outcome(s, footer, cde_start, c) && match c {
                Err(e) => r == Err::<ZipArchive, ZipError>(e),
                Ok(t) => walk_outcome(s, t.1 as int, t.0, t.2 as nat, r is Ok, r->Err_0),
            }
    }
}

/// Two decodings of the same end record give the same directory outcome.
proof fn lemma_open_outcome_congruent(s: Seq<u8>, f1: CentralDirectoryEnd, f2: CentralDirectoryEnd, p: u64, r: ZipResult<ZipArchive>)
    requires
        f1.decoded_from(s, p as int),
        f2.decoded_from(s, p as int),
        open_outcome(s, f1, p, r),
    ensures
        open_outcome(s, f2, p, r),
{
    if !(!f1.spec_record_too_small() && f1.disk_number != f1.disk_with_central_directory) {
        let c = choose|c: ZipResult<(u64, u64, u64)>|
            #[trigger] directory_counts_outcome(s, f1, p, c) && match c {
                Err(e) => r == Err::<ZipArchive, ZipError>(e),
                Ok(t) => walk_outcome(s, t.1 as int, t.0, t.2 as nat, r is Ok, r->Err_0),
            };
        reveal(directory_counts_outcome);
        assert(f1.zip_file_comment@.len() == f2.zip_file_comment@.len());
        assert(legacy_counts(f1, p) == legacy_counts(f2, p));
        assert(directory_counts_outcome(s, f2, p, c));
    }
}

/// The outcome shown for the end record that was found holds for every decoding of the last
/// end record.
proof fn lemma_open_outcome_everywhere(s: Seq<u8>, footer: CentralDirectoryEnd, cde_start: u64, r: ZipResult<ZipArchive>)
    requires
        is_last_eocd_signature(s, cde_start as int),
        footer.decoded_from(s, cde_start as int),
        open_outcome(s, footer, cde_start, r),
    ensures
        forall|p: int, f: CentralDirectoryEnd|
            #![trigger f.decoded_from(s, p), is_last_eocd_signature(s, p)]
            is_last_eocd_signature(s, p) && eocd_well_formed(s, p) && f.decoded_from(s, p)
                ==> open_outcome(s, f, p as u64, r),
{
    assert forall|p: int, f: CentralDirectoryEnd|
        #![trigger f.decoded_from(s, p), is_last_eocd_signature(s, p)]
        is_last_eocd_signature(s, p) && eocd_well_formed(s, p) && f.decoded_from(s, p)
            implies open_outcome(s, f, p as u64, r) by {
        assert(p == cde_start);
        lemma_open_outcome_congruent(s, footer, f, cde_start, r);
    }
}

pub struct ZipArchive {
    /// The bytes of the archive file.
    pub file: Vec<u8>,
    /// The entries, one per name.
    pub entries: Vec<ZipFileData>,
}

impl ZipArchive {
    /// Every entry name is held once.
    pub open spec fn wf(&self) -> bool {
        names_unique(self.entries@)
    }

    /// Resolves the archive offset, the start of the central directory and the number of entries,
    /// from the end record at `cde_start_pos` and, where the image holds them, the ZIP64 records.
    pub fn get_directory_counts(data: &[u8], footer: &CentralDirectoryEnd, cde_start_pos: u64) -> (r: ZipResult<(u64, u64, u64)>)
        requires
            cde_start_pos <= data@.len(),
        ensures
            directory_counts_outcome(data@, *footer, cde_start_pos, r),
    {
        reveal(directory_counts_outcome);
        let comment_len = footer.zip_file_comment.len() as u64;
        match find_locator(data, comment_len) {
            None => {
                let size = footer.central_directory_size as u64;
                let offset = footer.central_directory_offset as u64;
                if cde_start_pos < size || cde_start_pos - size < offset {
                    return Err(ZipError::InvalidArchive("Invalid central directory size or offset"));
                }
                let archive_offset = cde_start_pos - size - offset;
                let directory_start = offset + archive_offset;
                Ok((archive_offset, directory_start, footer.number_of_files_on_this_disk as u64))
            },
            Some(locator64) => zip64_directory_counts(data, footer, cde_start_pos, &locator64),
        }
    }

    /// Opens the archive whose file holds `data`: finds the end record, resolves where the
    /// central directory lies, and indexes its entries by name. Entries whose compression
    /// method is not supported are left out; a later entry replaces an earlier one of the
    /// same name.
    pub fn new(data: Vec<u8>) -> (r: ZipResult<ZipArchive>)
        ensures
            data@.len() < 22 ==> r is Err && r->Err_0 is InvalidArchive,
            data@.len() >= 22 && no_eocd_signature(data@) ==> r is Err && r->Err_0 is InvalidArchive,
            r is Ok ==> r->Ok_0.file@ == data@ && r->Ok_0.wf(),
            r is Ok ==> exists|p: u64, footer: CentralDirectoryEnd, archive_offset: u64, directory_start: u64, number_of_files: u64|
                is_last_eocd_signature(data@, p as int) && footer.decoded_from(data@, p as int)
                    && #[trigger] directory_counts_outcome(data@, footer, p,
                    Ok::<(u64, u64, u64), ZipError>((archive_offset, directory_start, number_of_files)))
                    && (number_of_files > 0 ==> avail(data@, directory_start as int, 4) && le32(data@, directory_start as int)
                        == CENTRAL_DIRECTORY_HEADER_SIGNATURE)
                    && exists|w: Seq<nat>| #[trigger] indexes_directory(data@, directory_start as int, archive_offset, number_of_files as nat, r->Ok_0.entries@, w),
            forall|p: int|
                is_last_eocd_signature(data@, p) && !eocd_well_formed(data@, p) ==> r is Err,
            forall|p: int, footer: CentralDirectoryEnd|
                #![trigger footer.decoded_from(data@, p), is_last_eocd_signature(data@, p)]
                is_last_eocd_signature(data@, p) && eocd_well_formed(data@, p) && footer.decoded_from(data@, p)
                    ==> open_outcome(data@, footer, p as u64, r),
    {
        let (footer, cde_start_pos) = CentralDirectoryEnd::find_and_parse(data.as_slice())?;
        if !footer.record_too_small() && footer.disk_number != footer.disk_with_central_directory {
            let r: ZipResult<ZipArchive> = Err(ZipError::UnsupportedArchive);
            proof {
                lemma_open_outcome_everywhere(data@, footer, cde_start_pos, r);
            }
            return r;
        }
        let counts = ZipArchive::get_directory_counts(data.as_slice(), &footer, cde_start_pos);
        let (archive_offset, directory_start, number_of_files) = match counts {
            Ok(t) => t,
            Err(e) => {
                let r: ZipResult<ZipArchive> = Err(e);
                proof {
                    assert(directory_counts_outcome(data@, footer, cde_start_pos, counts));
                    lemma_open_outcome_everywhere(data@, footer, cde_start_pos, r);
                }
                return r;
            },
        };
        let walked = read_directory(data.as_slice(), directory_start, number_of_files, archive_offset);
        let entries = match walked {
            Ok(v) => v,
            Err(e) => {
                let r: ZipResult<ZipArchive> = Err(e);
                proof {
                    assert(directory_counts_outcome(data@, footer, cde_start_pos, counts));
                    assert(walk_outcome(data@, directory_start as int, archive_offset, number_of_files as nat, r is Ok, r->Err_0));
                    lemma_open_outcome_everywhere(data@, footer, cde_start_pos, r);
                }
                return r;
            },
        };
        let ghost image = data@;
        let ghost listed = entries@;
        let result: ZipResult<ZipArchive> = Ok(ZipArchive { file: data, entries });
        proof {
            let w = choose|w: Seq<nat>| #[trigger] indexes_directory(image, directory_start as int, archive_offset, number_of_files as nat, listed, w);
            assert(result->Ok_0.entries@ == listed);
            assert(directory_counts_outcome(image, footer, cde_start_pos, Ok::<(u64, u64, u64), ZipError>((archive_offset, directory_start, number_of_files))));
            assert(indexes_directory(image, directory_start as int, archive_offset, number_of_files as nat, result->Ok_0.entries@, w));
            assert(number_of_files > 0 ==> avail(image, directory_start as int, 4) && le32(image, directory_start as int)
                == CENTRAL_DIRECTORY_HEADER_SIGNATURE);
            assert(directory_counts_outcome(image, footer, cde_start_pos, counts));
            assert(walk_outcome(image, directory_start as int, archive_offset, number_of_files as nat, result is Ok, result->Err_0));
            lemma_open_outcome_everywhere(image, footer, cde_start_pos, result);
        }
        result
    }

    /// Opens the entry named `name` for reading: checks its local header and builds the
    /// stream over its data.
    pub fn by_name(&self, name: &str) -> (r: ZipResult<ZipFile<'_>>)
        requires
            self.wf(),
        ensures
            !holds_name(self.entries@, name@) ==> r is Err && r->Err_0 == ZipError::FileNotFound,
            forall|i: int|
                0 <= i < self.entries@.len() && self.entries@[i].file_name@ == name@ ==> ({
                    let e = self.entries@[i];
                    let h = e.header_start as int;
                    if !avail(self.file@, h, 4) {
                        r is Err && r->Err_0 == eof_error()
                    } else if le32(self.file@, h) != LOCAL_FILE_HEADER_SIGNATURE {
                        r is Err && r->Err_0 is InvalidArchive
                    } else {
                        match r {
                            Ok(zf) => *zf.data == e && reader_outcome(self.file@, e, h + 4, Ok::<ZipFileReader, ZipError>(zf.reader)),
                            Err(err) => reader_outcome(self.file@, e, h + 4, Err::<ZipFileReader, ZipError>(err)),
                        }
                    }
                }),
    {
        let key = name.to_owned();
        let idx = match find_entry(&self.entries, &key) {
            Some(i) => i,
            None => {
                return Err(ZipError::FileNotFound);
            },
        };
        let data = &self.entries[idx];
        let file = self.file.as_slice();
        let _len = file.len();
        let signature = read_u32(file, data.header_start)?;
        if signature != LOCAL_FILE_HEADER_SIGNATURE {
            return Err(ZipError::InvalidArchive("Invalid local file header"));
        }
        let position = data.header_start + 4;
        let reader = find_reader(file, data, position)?;
        Ok(ZipFile::new(reader, data))
    }
}

} // verus!
