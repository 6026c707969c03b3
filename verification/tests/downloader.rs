use maxima::decimal::{append_decimal, append_signed_decimal};
use maxima::downloader::{
    decoder_kind, entry_download_state, entry_range_header, plan_single_file, range_header,
    DecoderKind, DownloadError, EntryDownloadState, FileAction, SingleFilePlan, ZipDownloader,
};
use maxima::zip::{CompressionType, ZipFile, ZipFileEntry};

fn entry(name: &str, uncompressed: i64, offset: i64, kind: CompressionType) -> ZipFileEntry {
    ZipFileEntry::new(name.to_string(), 0xdead_beef, 7, uncompressed, offset, kind)
}

#[test]
fn decimal_rendering() {
    let mut s = String::from("x");
    append_decimal(&mut s, 0);
    append_decimal(&mut s, 9);
    append_decimal(&mut s, 10);
    append_decimal(&mut s, u64::MAX);
    assert_eq!(s, "x091018446744073709551615");
    let mut t = String::new();
    append_signed_decimal(&mut t, -1);
    append_signed_decimal(&mut t, i64::MIN);
    append_signed_decimal(&mut t, i64::MAX);
    assert_eq!(t, "-1-92233720368547758089223372036854775807");
}

#[test]
fn range_header_end_is_exclusive() {
    assert_eq!(range_header(100, 0, 50), "bytes=100-149");
    assert_eq!(range_header(0, 0, 1), "bytes=0-0");
    assert_eq!(range_header(1000, 50_000_000, 100_000_000), "bytes=50001000-100000999");
}

#[test]
fn range_header_negative_and_extreme_values() {
    assert_eq!(range_header(-5, 0, 1), "bytes=-5--5");
    assert_eq!(range_header(0, 5, 5), "bytes=5-4");
    assert_eq!(
        range_header(0, i64::MIN, i64::MIN + 1),
        "bytes=-9223372036854775808--9223372036854775808"
    );
    assert_eq!(
        range_header(1, i64::MAX - 1, i64::MAX - 1),
        "bytes=9223372036854775807-9223372036854775806"
    );
}

#[test]
fn entry_range_header_uses_data_offset() {
    let e = entry("a.bin", 10, 4096, CompressionType::Stored);
    assert_eq!(entry_range_header(&e, 0, 10), "bytes=4096-4105");
    assert_eq!(entry_range_header(&e, 10, 20), "bytes=4106-4115");
}

#[test]
fn download_state_decisions() {
    let e = entry("a.bin", 20, 0, CompressionType::Deflate);
    assert_eq!(entry_download_state(&e, false, 20), EntryDownloadState::Fresh);
    assert_eq!(entry_download_state(&e, false, 0), EntryDownloadState::Fresh);
    assert_eq!(entry_download_state(&e, true, 20), EntryDownloadState::Complete);
    assert_eq!(entry_download_state(&e, true, 19), EntryDownloadState::Resumable);
    assert_eq!(entry_download_state(&e, true, 0), EntryDownloadState::Resumable);
}

#[test]
fn download_state_compares_length_as_signed() {
    let e = entry("big.bin", -1, 0, CompressionType::Stored);
    assert_eq!(entry_download_state(&e, true, u64::MAX), EntryDownloadState::Complete);
}

#[test]
fn plan_directory_entry() {
    let d = entry("maps/", 0, 0, CompressionType::Stored);
    assert_eq!(
        plan_single_file(&d, 0, false, false),
        SingleFilePlan { create_parent: true, action: FileAction::CreateDirectory }
    );
    assert_eq!(
        plan_single_file(&d, 0, true, false),
        SingleFilePlan { create_parent: false, action: FileAction::CreateDirectory }
    );
    // an existing directory falls through to the empty-entry case
    assert_eq!(
        plan_single_file(&d, 0, true, true),
        SingleFilePlan { create_parent: false, action: FileAction::Nothing }
    );
    // a resumed download never creates directories
    assert_eq!(
        plan_single_file(&d, 3, false, false),
        SingleFilePlan { create_parent: false, action: FileAction::Nothing }
    );
}

#[test]
fn plan_file_entries() {
    let empty = entry("maps/empty.txt", 0, 0, CompressionType::Deflate);
    assert_eq!(
        plan_single_file(&empty, 0, false, false),
        SingleFilePlan { create_parent: true, action: FileAction::Nothing }
    );
    let stored = entry("maps/a.bin", 12, 0, CompressionType::Stored);
    assert_eq!(
        plan_single_file(&stored, 0, true, true),
        SingleFilePlan {
            create_parent: false,
            action: FileAction::CreateFile(DecoderKind::Passthrough)
        }
    );
    let deflated = entry("maps/b.bin", 12, 0, CompressionType::Deflate);
    assert_eq!(
        plan_single_file(&deflated, 100, false, false),
        SingleFilePlan { create_parent: false, action: FileAction::CreateFile(DecoderKind::Deflate) }
    );
}

#[test]
fn decoder_for_compression() {
    assert_eq!(decoder_kind(CompressionType::Stored), DecoderKind::Passthrough);
    assert_eq!(decoder_kind(CompressionType::Deflate), DecoderKind::Deflate);
}

#[test]
fn directory_names() {
    assert!(entry("a/", 0, 0, CompressionType::Stored).is_directory());
    assert!(entry("é/", 0, 0, CompressionType::Stored).is_directory());
    assert!(!entry("a", 0, 0, CompressionType::Stored).is_directory());
    assert!(!entry("", 0, 0, CompressionType::Stored).is_directory());
    assert!(!entry("a/b", 0, 0, CompressionType::Stored).is_directory());
}

#[test]
fn entry_getters() {
    let e = ZipFileEntry::new("x".to_string(), 42, 7, 9, 11, CompressionType::Deflate);
    assert_eq!(e.name(), "x");
    assert_eq!(e.crc32(), 42);
    assert_eq!(e.compressed_size(), 7);
    assert_eq!(e.uncompressed_size(), 9);
    assert_eq!(e.data_offset(), 11);
    assert_eq!(e.compression_type(), CompressionType::Deflate);
}

#[test]
fn error_display_names() {
    assert_eq!(DownloadError::DownloadFailed(3).display_name(), "DownloadFailed");
    assert_eq!(DownloadError::ChunkFailed.display_name(), "ChunkFailed");
}

#[test]
fn zip_downloader_keeps_url_and_manifest() {
    let manifest = ZipFile::new(vec![entry("a", 1, 2, CompressionType::Stored)]);
    let d = ZipDownloader::new("http://example.invalid/game.zip", manifest).unwrap();
    assert_eq!(d.url(), "http://example.invalid/game.zip");
    assert_eq!(d.manifest().entries().len(), 1);
    assert_eq!(d.manifest().entries()[0].name(), "a");
    let _client = d.client().clone();
}

#[test]
fn with_client_keeps_the_built_client() {
    let manifest = ZipFile::new(vec![entry("b/", 0, 0, CompressionType::Stored)]);
    let client = reqwest::Client::builder().build();
    let d = ZipDownloader::with_client("http://example.invalid/x.zip", manifest, client).unwrap();
    assert_eq!(d.url(), "http://example.invalid/x.zip");
    assert_eq!(d.manifest().entries()[0].name(), "b/");
}
