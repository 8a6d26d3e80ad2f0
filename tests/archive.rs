use std::io::Write;

use zipvfs::deflate::{decide_step, InflateStatus, StepAction};
use zipvfs::extra::{resolve_extra_fields, ExtraFields};
use zipvfs::format::{AesMode, AesVendorVersion, CentralDirectoryEnd, CompressionMethod};
use zipvfs::plaintext::SeekPos;
use zipvfs::result::{IoFault, ZipError};
use zipvfs::zip_archive::{insert_entry, read_directory, ZipArchive};
use zipvfs::zip_file::{ZipFileData, ZipFileReader};

struct Member {
    name: Vec<u8>,
    flags: u16,
    method: u16,
    payload: Vec<u8>,
    uncompressed: u32,
    extra: Vec<u8>,
}

fn stored(name: &str, payload: &[u8]) -> Member {
    Member {
        name: name.as_bytes().to_vec(),
        flags: 0,
        method: 0,
        payload: payload.to_vec(),
        uncompressed: payload.len() as u32,
        extra: Vec::new(),
    }
}

fn deflated(name: &str, plain: &[u8]) -> Member {
    let mut enc = flate2::write::DeflateEncoder::new(Vec::new(), flate2::Compression::default());
    enc.write_all(plain).unwrap();
    let payload = enc.finish().unwrap();
    Member {
        name: name.as_bytes().to_vec(),
        flags: 0,
        method: 8,
        payload,
        uncompressed: plain.len() as u32,
        extra: Vec::new(),
    }
}

fn put16(v: &mut Vec<u8>, x: u16) {
    v.extend_from_slice(&x.to_le_bytes());
}

fn put32(v: &mut Vec<u8>, x: u32) {
    v.extend_from_slice(&x.to_le_bytes());
}

fn put64(v: &mut Vec<u8>, x: u64) {
    v.extend_from_slice(&x.to_le_bytes());
}

/// Local headers and data, then the central directory; offsets relative to the end of `prefix`.
fn body(prefix: &[u8], members: &[Member]) -> (Vec<u8>, Vec<u8>) {
    let mut out = prefix.to_vec();
    let mut central = Vec::new();
    for m in members {
        let offset = (out.len() - prefix.len()) as u32;
        put32(&mut out, 0x04034b50);
        put16(&mut out, 20);
        put16(&mut out, m.flags);
        put16(&mut out, m.method);
        put16(&mut out, 0);
        put16(&mut out, 0);
        put32(&mut out, 0);
        put32(&mut out, m.payload.len() as u32);
        put32(&mut out, m.uncompressed);
        put16(&mut out, m.name.len() as u16);
        put16(&mut out, 0);
        out.extend_from_slice(&m.name);
        out.extend_from_slice(&m.payload);

        put32(&mut central, 0x02014b50);
        put16(&mut central, 20);
        put16(&mut central, 20);
        put16(&mut central, m.flags);
        put16(&mut central, m.method);
        put16(&mut central, 0);
        put16(&mut central, 0);
        put32(&mut central, 0);
        put32(&mut central, m.payload.len() as u32);
        put32(&mut central, m.uncompressed);
        put16(&mut central, m.name.len() as u16);
        put16(&mut central, m.extra.len() as u16);
        put16(&mut central, 0);
        put16(&mut central, 0);
        put16(&mut central, 0);
        put32(&mut central, 0);
        put32(&mut central, offset);
        central.extend_from_slice(&m.name);
        central.extend_from_slice(&m.extra);
    }
    (out, central)
}

fn build_with_prefix(prefix: &[u8], members: &[Member], comment: &[u8]) -> Vec<u8> {
    let (mut out, central) = body(prefix, members);
    let cd_offset = (out.len() - prefix.len()) as u32;
    out.extend_from_slice(&central);
    put32(&mut out, 0x06054b50);
    put16(&mut out, 0);
    put16(&mut out, 0);
    put16(&mut out, members.len() as u16);
    put16(&mut out, members.len() as u16);
    put32(&mut out, central.len() as u32);
    put32(&mut out, cd_offset);
    put16(&mut out, comment.len() as u16);
    out.extend_from_slice(comment);
    out
}

fn build(members: &[Member]) -> Vec<u8> {
    build_with_prefix(&[], members, &[])
}

fn build_zip64(members: &[Member]) -> Vec<u8> {
    let (mut out, central) = body(&[], members);
    let cd_offset = out.len() as u64;
    out.extend_from_slice(&central);
    let end64 = out.len() as u64;
    put32(&mut out, 0x06064b50);
    put64(&mut out, 44);
    put16(&mut out, 45);
    put16(&mut out, 45);
    put32(&mut out, 0);
    put32(&mut out, 0);
    put64(&mut out, members.len() as u64);
    put64(&mut out, members.len() as u64);
    put64(&mut out, central.len() as u64);
    put64(&mut out, cd_offset);
    put32(&mut out, 0x07064b50);
    put32(&mut out, 0);
    put64(&mut out, end64);
    put32(&mut out, 1);
    put32(&mut out, 0x06054b50);
    put16(&mut out, 0);
    put16(&mut out, 0);
    put16(&mut out, 0xFFFF);
    put16(&mut out, 0xFFFF);
    put32(&mut out, 0xFFFF_FFFF);
    put32(&mut out, 0xFFFF_FFFF);
    put16(&mut out, 0);
    out
}

fn read_all(archive: &ZipArchive, name: &str) -> Result<Vec<u8>, ZipError> {
    let mut file = archive.by_name(name)?;
    let mut out = Vec::new();
    let mut buf = [0u8; 7];
    loop {
        let n = file.read(&mut buf)?;
        if n == 0 {
            break;
        }
        out.extend_from_slice(&buf[..n]);
    }
    Ok(out)
}

fn find<'a>(archive: &'a ZipArchive, name: &str) -> Option<&'a ZipFileData> {
    archive.entries.iter().find(|e| e.file_name == name)
}

#[test]
fn test_zip_file() {
    let archive = ZipArchive::new(Vec::new());
    assert!(archive.is_err());
}

#[test]
fn image_below_end_record_size_is_invalid() {
    let r = ZipArchive::new(vec![0x50, 0x4b, 0x05, 0x06, 0, 0, 0, 0, 0, 0]);
    assert!(matches!(r, Err(ZipError::InvalidArchive(_))));
}

#[test]
fn image_without_end_record_is_invalid() {
    let r = ZipArchive::new(vec![0u8; 100]);
    assert!(matches!(r, Err(ZipError::InvalidArchive(_))));
}

#[test]
fn empty_stored_entry_reports_end_of_stream() {
    let archive = ZipArchive::new(build(&[stored("a.txt", b"")])).unwrap();
    let mut file = archive.by_name("a.txt").unwrap();
    let mut buf = [0u8; 16];
    assert_eq!(file.read(&mut buf), Ok(0));
    assert_eq!(file.len(), 0);
}

#[test]
fn unsupported_method_entry_is_left_out() {
    let mut m = stored("x.bin", b"abc");
    m.method = 99;
    let archive = ZipArchive::new(build(&[m])).unwrap();
    assert_eq!(archive.entries.len(), 0);
    assert!(matches!(archive.by_name("x.bin"), Err(ZipError::FileNotFound)));
}

#[test]
fn unsupported_entry_is_skipped_and_the_next_kept() {
    let mut m = stored("x.bin", b"abc");
    m.method = 12;
    let archive = ZipArchive::new(build(&[m, stored("b.txt", b"bee")])).unwrap();
    assert_eq!(archive.entries.len(), 1);
    assert_eq!(read_all(&archive, "b.txt").unwrap(), b"bee".to_vec());
}

#[test]
fn stored_entry_reads_exactly_its_size() {
    let text = b"hello, stored world: 0123456789";
    let archive = ZipArchive::new(build(&[stored("s.txt", text)])).unwrap();
    let mut file = archive.by_name("s.txt").unwrap();
    assert_eq!(file.len(), text.len() as u64);
    let mut out = Vec::new();
    let mut buf = [0u8; 5];
    loop {
        let n = file.read(&mut buf).unwrap();
        if n == 0 {
            break;
        }
        out.extend_from_slice(&buf[..n]);
    }
    assert_eq!(out, text.to_vec());
    assert_eq!(file.read(&mut buf), Ok(0));
}

#[test]
fn stored_entry_read_to_end_after_prefix() {
    let archive = ZipArchive::new(build(&[stored("a", b"AAAA"), stored("b", b"BB")])).unwrap();
    let mut file = archive.by_name("b").unwrap();
    match &mut file.reader {
        ZipFileReader::Stored(r) => {
            assert_eq!(r.read_to_end().unwrap(), b"BB".to_vec());
            assert_eq!(r.read_to_end().unwrap(), Vec::<u8>::new());
        }
        ZipFileReader::Deflate(_) => panic!("expected a stored stream"),
    }
}

#[test]
fn deflate_entry_reads_its_uncompressed_size() {
    let plain: Vec<u8> = (0..2000u32).map(|i| (i % 17) as u8 + b'a').collect();
    let archive = ZipArchive::new(build(&[deflated("d.txt", &plain)])).unwrap();
    let data = find(&archive, "d.txt").unwrap();
    assert_eq!(data.compression_method, CompressionMethod::Deflate);
    assert_eq!(data.uncompressed_size, 2000);
    let out = read_all(&archive, "d.txt").unwrap();
    assert_eq!(out.len(), 2000);
    assert_eq!(out, plain);
}

#[test]
fn corrupt_deflate_payload_fails() {
    let mut m = deflated("c.txt", b"some text");
    m.payload = vec![0xFF, 0xFF, 0xFF, 0xFF, 0xFF, 0xFF];
    let archive = ZipArchive::new(build(&[m])).unwrap();
    assert_eq!(read_all(&archive, "c.txt"), Err(ZipError::Io(IoFault::CorruptDeflate)));
}

#[test]
fn deflate_stream_does_not_seek() {
    let archive = ZipArchive::new(build(&[deflated("d", b"abc")])).unwrap();
    let mut file = archive.by_name("d").unwrap();
    assert_eq!(file.seek(SeekPos::Start(0)), Err(ZipError::Io(IoFault::Unsupported)));
}

#[test]
fn stored_stream_seeks_within_range() {
    let archive = ZipArchive::new(build(&[stored("s", b"0123456789")])).unwrap();
    let mut file = archive.by_name("s").unwrap();
    assert_eq!(file.seek(SeekPos::Start(4)), Ok(4));
    let mut buf = [0u8; 2];
    assert_eq!(file.read(&mut buf), Ok(2));
    assert_eq!(&buf, b"45");
    assert_eq!(file.seek(SeekPos::Current(-3)), Ok(3));
    assert_eq!(file.seek(SeekPos::End(-1)), Ok(9));
    assert_eq!(file.read(&mut buf), Ok(1));
    assert_eq!(buf[0], b'9');
    assert_eq!(file.seek(SeekPos::End(1)), Err(ZipError::Io(IoFault::InvalidSeek)));
    assert_eq!(file.seek(SeekPos::Current(-20)), Err(ZipError::Io(IoFault::InvalidSeek)));
    assert_eq!(file.seek(SeekPos::Start(11)), Err(ZipError::Io(IoFault::InvalidSeek)));
    assert_eq!(file.seek(SeekPos::Start(10)), Ok(10));
}

#[test]
fn missing_name_is_not_found() {
    let archive = ZipArchive::new(build(&[stored("a.txt", b"a")])).unwrap();
    assert!(matches!(archive.by_name("b.txt"), Err(ZipError::FileNotFound)));
}

#[test]
fn duplicate_name_keeps_the_last_entry() {
    let archive = ZipArchive::new(build(&[stored("d.txt", b"first"), stored("d.txt", b"second!")])).unwrap();
    assert_eq!(archive.entries.len(), 1);
    assert_eq!(read_all(&archive, "d.txt").unwrap(), b"second!".to_vec());
}

#[test]
fn insert_entry_replaces_same_name() {
    let mk = |name: &str, size: u64| ZipFileData {
        compression_method: CompressionMethod::Stored,
        compressed_size: size,
        uncompressed_size: size,
        file_name: name.to_string(),
        extra_field: Vec::new(),
        header_start: 0,
        central_header_start: 0,
        large_file: false,
        aes_mode: None,
    };
    let mut entries = Vec::new();
    insert_entry(&mut entries, mk("a", 1));
    insert_entry(&mut entries, mk("b", 2));
    insert_entry(&mut entries, mk("a", 3));
    assert_eq!(entries.len(), 2);
    let a = entries.iter().find(|e| e.file_name == "a").unwrap();
    assert_eq!(a.compressed_size, 3);
    let b = entries.iter().find(|e| e.file_name == "b").unwrap();
    assert_eq!(b.compressed_size, 2);
}

#[test]
fn directory_past_the_image_fails() {
    let mut image = build(&[stored("a.txt", b"abc")]);
    let n = image.len();
    // Declared directory size grows so that the directory would start before the image.
    image[n - 10..n - 6].copy_from_slice(&0x7000u32.to_le_bytes());
    assert!(matches!(ZipArchive::new(image), Err(ZipError::InvalidArchive(_))));
}

#[test]
fn directory_without_header_signature_fails() {
    let mut image = build(&[stored("a.txt", b"abc")]);
    let n = image.len();
    let cd_offset = u32::from_le_bytes([image[n - 6], image[n - 5], image[n - 4], image[n - 3]]) as usize;
    image[cd_offset] = 0;
    assert!(ZipArchive::new(image).is_err());
}

#[test]
fn truncated_directory_fails() {
    let mut image = build(&[stored("a.txt", b"abc")]);
    let n = image.len();
    // One more entry is declared than the directory holds.
    image[n - 14..n - 12].copy_from_slice(&2u16.to_le_bytes());
    image[n - 12..n - 10].copy_from_slice(&2u16.to_le_bytes());
    assert!(ZipArchive::new(image).is_err());
}

#[test]
fn prefixed_archive_offsets_are_shifted() {
    let prefix = vec![0xAAu8; 37];
    let image = build_with_prefix(&prefix, &[stored("p.txt", b"payload")], b"a comment");
    let (footer, pos) = CentralDirectoryEnd::find_and_parse(&image).unwrap();
    assert_eq!(footer.zip_file_comment, b"a comment".to_vec());
    let (archive_offset, directory_start, count) = ZipArchive::get_directory_counts(&image, &footer, pos).unwrap();
    assert_eq!(archive_offset, 37);
    assert_eq!(archive_offset + footer.central_directory_offset as u64, directory_start);
    assert!(directory_start + footer.central_directory_size as u64 <= pos);
    assert_eq!(count, 1);
    let archive = ZipArchive::new(image).unwrap();
    assert_eq!(find(&archive, "p.txt").unwrap().header_start, 37);
    assert_eq!(read_all(&archive, "p.txt").unwrap(), b"payload".to_vec());
}

#[test]
fn end_record_is_found_before_a_comment() {
    let image = build_with_prefix(&[], &[stored("c", b"c")], &[0x50, 0x4b, 0x01, 0x02, 7, 7, 7]);
    let (footer, pos) = CentralDirectoryEnd::find_and_parse(&image).unwrap();
    assert_eq!(pos as usize, image.len() - 22 - 7);
    assert_eq!(footer.number_of_files, 1);
    assert!(!footer.record_too_small());
}

#[test]
fn zip64_end_record_locates_directory() {
    let image = build_zip64(&[stored("z.txt", b"zip64 data"), stored("y.txt", b"y")]);
    let (footer, pos) = CentralDirectoryEnd::find_and_parse(&image).unwrap();
    assert!(footer.record_too_small());
    let (archive_offset, _directory_start, count) = ZipArchive::get_directory_counts(&image, &footer, pos).unwrap();
    assert_eq!(archive_offset, 0);
    assert_eq!(count, 2);
    let archive = ZipArchive::new(image).unwrap();
    assert_eq!(read_all(&archive, "z.txt").unwrap(), b"zip64 data".to_vec());
}

#[test]
fn zip64_multi_disk_is_unsupported() {
    let mut image = build_zip64(&[stored("z.txt", b"z")]);
    let n = image.len();
    // ZIP64 end record: disk number field.
    let end64 = n - 22 - 20 - 56;
    image[end64 + 16..end64 + 20].copy_from_slice(&1u32.to_le_bytes());
    assert_eq!(ZipArchive::new(image).err(), Some(ZipError::UnsupportedArchive));
}

#[test]
fn legacy_multi_disk_is_unsupported() {
    let mut image = build(&[stored("a", b"a")]);
    let n = image.len();
    image[n - 18..n - 16].copy_from_slice(&1u16.to_le_bytes());
    assert_eq!(ZipArchive::new(image).err(), Some(ZipError::UnsupportedArchive));
}

fn sentinel_fields() -> ExtraFields {
    ExtraFields {
        compression_method: CompressionMethod::Stored,
        compressed_size: 0xFFFF_FFFF,
        uncompressed_size: 0xFFFF_FFFF,
        header_start: 12,
        large_file: false,
        aes_mode: None,
    }
}

#[test]
fn zip64_extra_overrides_sentinel_sizes() {
    let mut extra = Vec::new();
    put16(&mut extra, 0x0001);
    put16(&mut extra, 16);
    put64(&mut extra, 0x1_0000_0005);
    put64(&mut extra, 0x1_0000_0003);
    let mut st = sentinel_fields();
    assert!(resolve_extra_fields(&extra, &mut st).is_ok());
    assert_eq!(st.uncompressed_size, 0x1_0000_0005);
    assert_eq!(st.compressed_size, 0x1_0000_0003);
    assert_eq!(st.header_start, 12);
    assert!(st.large_file);
}

#[test]
fn truncated_zip64_extra_keeps_what_was_read() {
    let mut extra = Vec::new();
    put16(&mut extra, 0x0001);
    put16(&mut extra, 16);
    put64(&mut extra, 77);
    let mut st = sentinel_fields();
    assert_eq!(resolve_extra_fields(&extra, &mut st), Err(ZipError::Io(IoFault::UnexpectedEof)));
    assert_eq!(st.uncompressed_size, 77);
    assert_eq!(st.compressed_size, 0xFFFF_FFFF);
    assert!(st.large_file);
}

#[test]
fn unknown_extra_records_are_skipped() {
    let mut extra = Vec::new();
    put16(&mut extra, 0x5455);
    put16(&mut extra, 3);
    extra.extend_from_slice(&[1, 2, 3]);
    put16(&mut extra, 0x0001);
    put16(&mut extra, 8);
    put64(&mut extra, 99);
    let mut st = sentinel_fields();
    st.compressed_size = 5;
    assert!(resolve_extra_fields(&extra, &mut st).is_ok());
    assert_eq!(st.uncompressed_size, 99);
    assert_eq!(st.compressed_size, 5);
}

fn aes_extra(len: u16, version: u16, vendor: u16, strength: u8, method: u16) -> Vec<u8> {
    let mut extra = Vec::new();
    put16(&mut extra, 0x9901);
    put16(&mut extra, len);
    put16(&mut extra, version);
    put16(&mut extra, vendor);
    extra.push(strength);
    put16(&mut extra, method);
    extra
}

#[test]
fn aes_extra_sets_mode_and_inner_method() {
    let mut st = sentinel_fields();
    st.compression_method = CompressionMethod::Unsupported(99);
    assert!(resolve_extra_fields(&aes_extra(7, 2, 0x4541, 3, 8), &mut st).is_ok());
    assert_eq!(st.compression_method, CompressionMethod::Deflate);
    assert_eq!(st.aes_mode, Some((AesMode::Aes256, AesVendorVersion::Ae2)));
}

#[test]
fn aes_extra_errors() {
    let mut st = sentinel_fields();
    assert_eq!(resolve_extra_fields(&aes_extra(6, 1, 0x4541, 1, 0), &mut st), Err(ZipError::UnsupportedAesExtraData));
    assert!(matches!(resolve_extra_fields(&aes_extra(7, 1, 0x1234, 1, 0), &mut st), Err(ZipError::InvalidArchive(_))));
    assert!(matches!(resolve_extra_fields(&aes_extra(7, 3, 0x4541, 1, 0), &mut st), Err(ZipError::InvalidArchive(_))));
    assert!(matches!(resolve_extra_fields(&aes_extra(7, 1, 0x4541, 4, 0), &mut st), Err(ZipError::InvalidArchive(_))));
}

#[test]
fn aes_entry_with_bad_length_fails_the_archive() {
    let mut m = stored("e", b"e");
    m.extra = aes_extra(6, 1, 0x4541, 1, 0);
    assert_eq!(ZipArchive::new(build(&[m])).err(), Some(ZipError::UnsupportedAesExtraData));
}

#[test]
fn aes_entry_reports_its_mode() {
    let mut m = stored("e", b"e");
    m.method = 99;
    m.extra = aes_extra(7, 1, 0x4541, 1, 0);
    let archive = ZipArchive::new(build(&[m])).unwrap();
    let e = find(&archive, "e").unwrap();
    assert_eq!(e.aes_mode, Some((AesMode::Aes128, AesVendorVersion::Ae1)));
    assert_eq!(e.compression_method, CompressionMethod::Stored);
}

#[test]
fn names_without_utf8_flag_use_code_page_437() {
    let mut m = stored("", b"x");
    m.name = vec![b'n', 0x80, 0x81, 0xE1];
    let archive = ZipArchive::new(build(&[m])).unwrap();
    assert_eq!(archive.entries[0].file_name, "n\u{c7}\u{fc}\u{df}");
}

#[test]
fn names_with_utf8_flag_are_utf8() {
    let mut m = stored("", b"x");
    m.name = "caf\u{e9}.txt".as_bytes().to_vec();
    m.flags = 0x800;
    let archive = ZipArchive::new(build(&[m])).unwrap();
    assert_eq!(archive.entries[0].file_name, "caf\u{e9}.txt");
    assert_eq!(read_all(&archive, "caf\u{e9}.txt").unwrap(), b"x".to_vec());
}

#[test]
fn bad_local_header_signature_fails_open() {
    let mut image = build(&[stored("a", b"a")]);
    image[0] = 0;
    let archive = ZipArchive::new(image).unwrap();
    assert!(matches!(archive.by_name("a"), Err(ZipError::InvalidArchive(_))));
}

#[test]
fn compression_method_codes() {
    assert_eq!(CompressionMethod::from_u16(0), CompressionMethod::Stored);
    assert_eq!(CompressionMethod::from_u16(8), CompressionMethod::Deflate);
    assert_eq!(CompressionMethod::from_u16(99), CompressionMethod::Unsupported(99));
    assert_eq!(CompressionMethod::Deflate.to_u16(), 8);
    assert_eq!(CompressionMethod::Stored.to_u16(), 0);
    assert_eq!(CompressionMethod::Unsupported(14).to_u16(), 14);
}

#[test]
fn engine_outcomes_decide_the_read_loop() {
    assert_eq!(decide_step(InflateStatus::Corrupt, 3, 3, false, false), StepAction::Fail);
    assert_eq!(decide_step(InflateStatus::Progress, 0, 4, false, false), StepAction::Retry);
    assert_eq!(decide_step(InflateStatus::BufError, 0, 0, false, false), StepAction::Fail);
    assert_eq!(decide_step(InflateStatus::Progress, 5, 4, false, false), StepAction::Deliver(5));
    assert_eq!(decide_step(InflateStatus::StreamEnd, 0, 0, false, false), StepAction::Deliver(0));
    assert_eq!(decide_step(InflateStatus::Progress, 0, 0, true, false), StepAction::Deliver(0));
    assert_eq!(decide_step(InflateStatus::Progress, 0, 0, false, true), StepAction::Deliver(0));
}

#[test]
fn directory_walk_indexes_each_kept_header() {
    let mut skipped = stored("skip", b"s");
    skipped.method = 14;
    let image = build(&[stored("one", b"1"), skipped, stored("two", b"22"), stored("one", b"111")]);
    let (footer, pos) = CentralDirectoryEnd::find_and_parse(&image).unwrap();
    let (archive_offset, directory_start, count) = ZipArchive::get_directory_counts(&image, &footer, pos).unwrap();
    assert_eq!(count, 4);
    let entries = read_directory(&image, directory_start, count, archive_offset).unwrap();
    assert_eq!(entries.len(), 2);
    let one = entries.iter().find(|e| e.file_name == "one").unwrap();
    assert_eq!(one.compressed_size, 3);
    let two = entries.iter().find(|e| e.file_name == "two").unwrap();
    assert_eq!(two.uncompressed_size, 2);
}

#[test]
fn directory_walk_past_the_image_fails() {
    let image = build(&[stored("one", b"1")]);
    let (footer, pos) = CentralDirectoryEnd::find_and_parse(&image).unwrap();
    let (archive_offset, directory_start, _) = ZipArchive::get_directory_counts(&image, &footer, pos).unwrap();
    assert!(read_directory(&image, directory_start, 2, archive_offset).is_err());
    assert_eq!(read_directory(&image, directory_start, 0, archive_offset).unwrap().len(), 0);
}

#[test]
fn invalid_utf8_name_is_replaced() {
    let mut m = stored("", b"x");
    m.name = vec![b'a', 0xFF, b'b'];
    m.flags = 0x800;
    let archive = ZipArchive::new(build(&[m])).unwrap();
    assert_eq!(archive.entries[0].file_name, "a\u{fffd}b");
}

#[test]
fn empty_deflate_entry_reads_nothing() {
    let archive = ZipArchive::new(build(&[deflated("e", b"")])).unwrap();
    assert_eq!(read_all(&archive, "e").unwrap(), Vec::<u8>::new());
}

#[test]
fn deflate_entry_drains_with_one_byte_reads() {
    let plain: Vec<u8> = (0..300u32).map(|i| (i * 7 % 251) as u8).collect();
    let archive = ZipArchive::new(build(&[deflated("d", &plain)])).unwrap();
    let mut file = archive.by_name("d").unwrap();
    let mut out = Vec::new();
    let mut buf = [0u8; 1];
    loop {
        let n = file.read(&mut buf).unwrap();
        if n == 0 {
            break;
        }
        out.push(buf[0]);
    }
    assert_eq!(out, plain);
    assert_eq!(file.read(&mut buf), Ok(0));
}

#[test]
fn error_messages() {
    assert_eq!(ZipError::FileNotFound.message(), "FileNotFound");
    assert_eq!(ZipError::Io(IoFault::CorruptDeflate).message(), "corrupt deflate stream");
    assert_eq!(ZipError::InvalidArchive("Invalid zip header").message(), "Invalid zip header");
}

#[test]
fn zip64_extra_offset_override_marks_large() {
    let mut extra = Vec::new();
    put16(&mut extra, 0x0001);
    put16(&mut extra, 8);
    put64(&mut extra, 0x2_0000_0000);
    let mut st = sentinel_fields();
    st.compressed_size = 10;
    st.uncompressed_size = 20;
    st.header_start = 0xFFFF_FFFF;
    assert!(resolve_extra_fields(&extra, &mut st).is_ok());
    assert_eq!(st.header_start, 0x2_0000_0000);
    assert_eq!(st.compressed_size, 10);
    assert!(st.large_file);
}

#[test]
fn walk_stops_at_first_failing_header() {
    let mut skipped = stored("skip", b"s");
    skipped.method = 99;
    let mut bad = stored("bad", b"b");
    bad.extra = aes_extra(5, 1, 0x4541, 1, 0);
    let image = build(&[skipped, bad, stored("ok", b"o")]);
    let (footer, pos) = CentralDirectoryEnd::find_and_parse(&image).unwrap();
    let (archive_offset, directory_start, count) = ZipArchive::get_directory_counts(&image, &footer, pos).unwrap();
    assert_eq!(
        read_directory(&image, directory_start, count, archive_offset).err(),
        Some(ZipError::UnsupportedAesExtraData)
    );
    assert_eq!(ZipArchive::new(image).err(), Some(ZipError::UnsupportedAesExtraData));
}

#[test]
fn bad_second_header_signature_is_invalid() {
    let mut image = build(&[stored("a", b"a"), stored("b", b"b")]);
    let n = image.len();
    let cd_offset = u32::from_le_bytes([image[n - 6], image[n - 5], image[n - 4], image[n - 3]]) as usize;
    let second = cd_offset + 46 + 1;
    image[second] = 0;
    assert!(matches!(ZipArchive::new(image), Err(ZipError::InvalidArchive(_))));
}

#[test]
fn deflate_read_of_zero_means_finished() {
    let archive = ZipArchive::new(build(&[deflated("d", b"xyz")])).unwrap();
    let mut file = archive.by_name("d").unwrap();
    let mut buf = [0u8; 64];
    assert_eq!(file.read(&mut buf), Ok(3));
    assert_eq!(&buf[..3], b"xyz");
    assert_eq!(file.read(&mut buf), Ok(0));
    match &file.reader {
        ZipFileReader::Deflate(r) => assert!(r.finished),
        ZipFileReader::Stored(_) => panic!("expected a DEFLATE stream"),
    }
    assert_eq!(file.read(&mut buf), Ok(0));
}
