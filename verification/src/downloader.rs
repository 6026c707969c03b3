//! Decisions of the zip downloader: which state an entry's file is in, which
//! byte range of the archive a request asks for, and what to do for one entry.

use vstd::prelude::*;
use vstd::string::StringExecFns;

use reqwest::Client;

use crate::decimal::{append_signed_decimal, lemma_signed_decimal_reads_back, reads_as, signed_decimal};
use crate::zip::{CompressionType, ZipFile, ZipFileEntry, is_directory_name};

verus! {

/// Why a download stopped.
#[derive(Debug, PartialEq, Eq, Structural)]
pub enum DownloadError {
    /// The response stream failed after this many bytes had arrived.
    DownloadFailed(usize),
    /// The request for a chunk could not be sent.
    ChunkFailed,
}

impl DownloadError {
    /// The text the error displays: the variant's name.
    pub fn display_name(&self) -> (s: &'static str)
        ensures
            s@ == match self {
                DownloadError::DownloadFailed(_) => "DownloadFailed"@,
                DownloadError::ChunkFailed => "ChunkFailed"@,
            },
    {
        match self {
            DownloadError::DownloadFailed(_) => "DownloadFailed",
            DownloadError::ChunkFailed => "ChunkFailed",
        }
    }
}

/// What is on disk for an entry before its download starts.
#[derive(Debug, Clone, Copy, PartialEq, Eq, Structural)]
pub enum EntryDownloadState {
    /// Nothing is on disk yet.
    Fresh,
    /// A file of the entry's full uncompressed size is on disk.
    Complete,
    /// A file is on disk but its size differs from the entry's.
    Resumable,
    /// The file on disk cannot be used.
    Borked,
}

/// The state of an entry's file, from whether the file exists and, when it
/// does, its length on disk (compared as a signed 64-bit size).
pub open spec fn spec_entry_download_state(
    uncompressed_size: i64,
    exists: bool,
    file_len: u64,
) -> EntryDownloadState {
    if !exists {
        EntryDownloadState::Fresh
    } else if uncompressed_size == file_len as i64 {
        EntryDownloadState::Complete
    } else {
        EntryDownloadState::Resumable
    }
}

/// Decides the download state of `entry` from what is on disk: `exists` tells
/// whether its file exists, `file_len` is that file's length.
pub fn entry_download_state(entry: &ZipFileEntry, exists: bool, file_len: u64) -> (state:
    EntryDownloadState)
    ensures
        state == spec_entry_download_state(entry.uncompressed_size, exists, file_len),
{
    if !exists {
        return EntryDownloadState::Fresh;
    }
    let size_match: bool = entry.uncompressed_size() == file_len as i64;
    if !size_match {
        return EntryDownloadState::Resumable;
    }
    EntryDownloadState::Complete
}

/// The first archive byte a request for `[start, end)` of an entry's data asks for.
pub open spec fn range_first(data_offset: int, start: int) -> int {
    data_offset + start
}

/// The last archive byte (inclusive) a request for `[start, end)` of an entry's data asks for.
pub open spec fn range_last(data_offset: int, end: int) -> int {
    data_offset + end - 1
}

/// The value of an HTTP `range` header asking for bytes `first` to `last`, both inclusive.
pub open spec fn spec_range_header(first: int, last: int) -> Seq<char> {
    seq!['b', 'y', 't', 'e', 's', '='] + signed_decimal(first) + seq!['-'] + signed_decimal(last)
}

/// The `range` header that asks for bytes `start` (inclusive) to `end`
/// (exclusive) of an entry's data, whose first byte lies at `data_offset` in
/// the archive.
pub fn range_header(data_offset: i64, start: i64, end: i64) -> (header: String)
    requires
        i64::MIN <= data_offset + start <= i64::MAX,
        i64::MIN <= data_offset + end <= i64::MAX,
        i64::MIN <= data_offset + end - 1,
    ensures
        header@ == spec_range_header(
            range_first(data_offset as int, start as int),
            range_last(data_offset as int, end as int),
        ),
{
    let first: i64 = data_offset + start;
    let last: i64 = data_offset + end - 1;
    proof {
        reveal_strlit("bytes=");
        reveal_strlit("-");
    }
    let mut header: String = String::new();
    header.append("bytes=");
    append_signed_decimal(&mut header, first);
    header.append("-");
    append_signed_decimal(&mut header, last);
    assert(header@ =~= spec_range_header(first as int, last as int));
    header
}

/// The `range` header for bytes `start` (inclusive) to `end` (exclusive) of `entry`'s data.
pub fn entry_range_header(entry: &ZipFileEntry, start: i64, end: i64) -> (header: String)
    requires
        i64::MIN <= entry.data_offset + start <= i64::MAX,
        i64::MIN <= entry.data_offset + end <= i64::MAX,
        i64::MIN <= entry.data_offset + end - 1,
    ensures
        header@ == spec_range_header(
            range_first(entry.data_offset as int, start as int),
            range_last(entry.data_offset as int, end as int),
        ),
{
    range_header(entry.data_offset(), start, end)
}

/// The header asks for exactly the half-open interval `[start, end)` of the
/// entry's data: a byte is in the requested inclusive range iff its position
/// relative to the data lies in `[start, end)`, and the range holds
/// `end - start` bytes.
pub proof fn lemma_range_is_half_open(data_offset: int, start: int, end: int, pos: int)
    requires
        start <= end,
    ensures
        range_first(data_offset, start) <= data_offset + pos <= range_last(data_offset, end)
            <==> start <= pos < end,
        range_last(data_offset, end) - range_first(data_offset, start) + 1 == end - start,
{
}

/// The header names its two bounds in base ten: it is `bytes=`, then a text
/// that reads back as `data_offset + start`, then `-`, then a text that reads
/// back as `data_offset + end - 1`.
pub proof fn lemma_range_header_reads_back(data_offset: int, start: int, end: int)
    ensures
        exists|a: Seq<char>, b: Seq<char>|
            #![trigger reads_as(a, data_offset + start), reads_as(b, data_offset + end - 1)]
            spec_range_header(range_first(data_offset, start), range_last(data_offset, end))
                == seq!['b', 'y', 't', 'e', 's', '='] + a + seq!['-'] + b && reads_as(
                a,
                data_offset + start,
            ) && reads_as(b, data_offset + end - 1),
{
    let a = signed_decimal(data_offset + start);
    let b = signed_decimal(data_offset + end - 1);
    lemma_signed_decimal_reads_back(data_offset + start);
    lemma_signed_decimal_reads_back(data_offset + end - 1);
    assert(reads_as(a, data_offset + start) && reads_as(b, data_offset + end - 1));
}

/// How the data of an entry is turned into the file's bytes.
#[derive(Debug, Clone, Copy, PartialEq, Eq, Structural)]
pub enum DecoderKind {
    /// Bytes are written as they arrive.
    Passthrough,
    /// Bytes are inflated with raw deflate.
    Deflate,
}

/// The decoder for an entry's compression.
pub open spec fn spec_decoder_kind(compression: CompressionType) -> DecoderKind {
    match compression {
        CompressionType::Stored => DecoderKind::Passthrough,
        CompressionType::Deflate => DecoderKind::Deflate,
    }
}

pub fn decoder_kind(compression: CompressionType) -> (kind: DecoderKind)
    ensures
        kind == spec_decoder_kind(compression),
{
    match compression {
        CompressionType::Stored => DecoderKind::Passthrough,
        CompressionType::Deflate => DecoderKind::Deflate,
    }
}

/// An entry whose file exists is `Complete` exactly when the file's length,
/// read as a signed 64-bit size, equals the entry's uncompressed size, and
/// `Resumable` for every other length; an entry with no file is `Fresh`.
pub proof fn lemma_download_state_by_length(uncompressed_size: i64, exists: bool, file_len: u64)
    ensures
        !exists ==> spec_entry_download_state(uncompressed_size, exists, file_len)
            == EntryDownloadState::Fresh,
        exists ==> (spec_entry_download_state(uncompressed_size, exists, file_len)
            == EntryDownloadState::Complete <==> file_len as i64 == uncompressed_size),
        exists ==> (spec_entry_download_state(uncompressed_size, exists, file_len)
            == EntryDownloadState::Resumable <==> file_len as i64 != uncompressed_size),
{
}

/// Two existing files of an entry are both complete only when their lengths
/// agree as signed 64-bit sizes.
pub proof fn lemma_complete_lengths_agree(uncompressed_size: i64, len_a: u64, len_b: u64)
    requires
        spec_entry_download_state(uncompressed_size, true, len_a) == EntryDownloadState::Complete,
        spec_entry_download_state(uncompressed_size, true, len_b) == EntryDownloadState::Complete,
    ensures
        len_a as i64 == len_b as i64,
{
}

/// What happens on disk for one entry after its parent directory is handled.
#[derive(Debug, Clone, Copy, PartialEq, Eq, Structural)]
pub enum FileAction {
    /// The entry is a directory: create it, and the entry is done.
    CreateDirectory,
    /// The entry has no data: nothing to write.
    Nothing,
    /// Create the file and decode the entry's data into it.
    CreateFile(DecoderKind),
}

/// The steps for one entry, in order: first create the missing parent
/// directory (when `create_parent` holds), then perform `action`.
#[derive(Debug, Clone, Copy, PartialEq, Eq, Structural)]
pub struct SingleFilePlan {
    pub create_parent: bool,
    pub action: FileAction,
}

/// The steps for one entry, given how many of its bytes were already
/// downloaded and what exists on disk.
pub open spec fn spec_plan_single_file(
    name: Seq<char>,
    uncompressed_size: i64,
    compression: CompressionType,
    bytes_downloaded: usize,
    parent_exists: bool,
    file_exists: bool,
) -> SingleFilePlan {
    let fresh = bytes_downloaded == 0;
    let create_parent = fresh && !parent_exists;
    let action = if fresh && is_directory_name(name) && !file_exists {
        FileAction::CreateDirectory
    } else if uncompressed_size == 0 {
        FileAction::Nothing
    } else {
        FileAction::CreateFile(spec_decoder_kind(compression))
    };
    SingleFilePlan { create_parent, action }
}

/// A created file is always written through the decoder of the entry's
/// compression, whatever was downloaded before and whatever is on disk:
/// stored data passes through, deflated data is inflated.
pub proof fn lemma_plan_decoder_follows_compression(
    name: Seq<char>,
    uncompressed_size: i64,
    compression: CompressionType,
    bytes_downloaded: usize,
    parent_exists: bool,
    file_exists: bool,
)
    ensures
        spec_plan_single_file(
            name,
            uncompressed_size,
            compression,
            bytes_downloaded,
            parent_exists,
            file_exists,
        ).action matches FileAction::CreateFile(k) ==> {
            &&& compression == CompressionType::Stored ==> k == DecoderKind::Passthrough
            &&& compression == CompressionType::Deflate ==> k == DecoderKind::Deflate
        },
{
}

/// A file entry with data (not a directory entry, or one resumed) is always
/// created, and never when it has no data.
pub proof fn lemma_plan_creates_nonempty_files(
    name: Seq<char>,
    uncompressed_size: i64,
    compression: CompressionType,
    bytes_downloaded: usize,
    parent_exists: bool,
    file_exists: bool,
)
    ensures
        (uncompressed_size != 0 && (bytes_downloaded != 0 || !is_directory_name(name)))
            ==> spec_plan_single_file(
            name,
            uncompressed_size,
            compression,
            bytes_downloaded,
            parent_exists,
            file_exists,
        ).action is CreateFile,
        uncompressed_size == 0 ==> !(spec_plan_single_file(
            name,
            uncompressed_size,
            compression,
            bytes_downloaded,
            parent_exists,
            file_exists,
        ).action is CreateFile),
{
}

/// Plans the download of one entry into a file: `bytes_downloaded` counts what
/// an earlier attempt wrote, `parent_exists` and `file_exists` tell what is on disk.
pub fn plan_single_file(
    entry: &ZipFileEntry,
    bytes_downloaded: usize,
    parent_exists: bool,
    file_exists: bool,
) -> (plan: SingleFilePlan)
    ensures
        plan == spec_plan_single_file(
            entry.name@,
            entry.uncompressed_size,
            entry.compression_type,
            bytes_downloaded,
            parent_exists,
            file_exists,
        ),
{
    let mut create_parent: bool = false;
    if bytes_downloaded == 0 {
        if !parent_exists {
            create_parent = true;
        }
        if entry.is_directory() && !file_exists {
            return SingleFilePlan { create_parent, action: FileAction::CreateDirectory };
        }
    }
    if entry.uncompressed_size() == 0 {
        return SingleFilePlan { create_parent, action: FileAction::Nothing };
    }
    let kind: DecoderKind = decoder_kind(entry.compression_type());
    SingleFilePlan { create_parent, action: FileAction::CreateFile(kind) }
}

#[verifier::external_type_specification]
#[verifier::external_body]
pub struct ExClient(Client);

#[verifier::external_type_specification]
#[verifier::external_body]
pub struct ExReqwestError(reqwest::Error);

/// `Client::builder().build()`: an HTTP client with the default
/// configuration. A default builder records no error, so the call fails only
/// when the native TLS connector cannot be built, which rests on the
/// machine's TLS library; nothing is stated of which outcome comes.
#[verifier::external_body]
fn build_client() -> (client: Result<Client, reqwest::Error>) {
    Client::builder().build()
}

/// Why a downloader could not be set up.
#[derive(Debug)]
pub enum SetupError {
    /// The HTTP client could not be built.
    ClientBuild(reqwest::Error),
}

/// Downloads the entries of one remote zip archive.
pub struct ZipDownloader {
    url: String,
    client: Client,
    manifest: ZipFile,
}

impl ZipDownloader {
    /// The archive's URL.
    pub closed spec fn url_view(&self) -> Seq<char> {
        self.url@
    }

    /// The archive's central directory.
    pub closed spec fn manifest_view(&self) -> Seq<ZipFileEntry> {
        self.manifest.entries@
    }

    /// A downloader for the archive at `url`, whose central directory is
    /// `manifest`; fails only when the HTTP client cannot be built, and then
    /// with that error. Which of the two comes rests on whether the machine's
    /// TLS library can set up a connector; what is
    /// returned for each outcome is `with_client`'s contract.
    pub fn new(url: &str, manifest: ZipFile) -> (downloader: Result<Self, SetupError>)
        ensures
            downloader matches Ok(d) ==> d.url_view() == url@ && d.manifest_view()
                == manifest.entries@,
            downloader is Err ==> downloader->Err_0 is ClientBuild,
    {
        let client: Result<Client, reqwest::Error> = build_client();
        Self::with_client(url, manifest, client)
    }

    /// The downloader for the archive at `url` with central directory
    /// `manifest`, given the outcome of building its HTTP client: a built
    /// client gives the downloader that holds it, a failure gives
    /// `ClientBuild` with that failure.
    pub fn with_client(url: &str, manifest: ZipFile, client: Result<Client, reqwest::Error>) -> (
    downloader: Result<Self, SetupError>)
        ensures
            match client {
                Ok(c) => downloader matches Ok(d) && d.url_view() == url@ && d.manifest_view()
                    == manifest.entries@ && d.client_view() == c,
                Err(e) => downloader == Err::<Self, SetupError>(SetupError::ClientBuild(e)),
            },
    {
        match client {
            Ok(client) => Ok(ZipDownloader { url: url.to_owned(), client, manifest }),
            Err(err) => Err(SetupError::ClientBuild(err)),
        }
    }

    pub fn manifest(&self) -> (manifest: &ZipFile)
        ensures
            manifest.entries@ == self.manifest_view(),
    {
        &self.manifest
    }

    pub fn url(&self) -> (url: &str)
        ensures
            url@ == self.url_view(),
    {
        self.url.as_str()
    }

    /// The HTTP client that requests go through.
    pub closed spec fn client_view(&self) -> Client {
        self.client
    }

    pub fn client(&self) -> (client: &Client)
        ensures
            *client == self.client_view(),
    {
        &self.client
    }
}

} // verus!
