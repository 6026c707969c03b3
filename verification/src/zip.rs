//! The parts of a remote zip archive's central directory that downloads read.

use vstd::prelude::*;
use vstd::string::StrSliceExecFns;

verus! {

/// How an entry's data is stored in the archive (`Stored` keeps it as is).
#[derive(Debug, Clone, Copy, PartialEq, Eq, Structural)]
pub enum CompressionType {
    Stored,
    Deflate,
}

/// One entry of a zip archive's central directory.
pub struct ZipFileEntry {
    pub name: String,
    pub crc32: u32,
    pub compressed_size: i64,
    pub uncompressed_size: i64,
    /// Offset of the entry's (possibly compressed) data from the start of the archive.
    pub data_offset: i64,
    pub compression_type: CompressionType,
}

/// True when a path names a directory entry of an archive: it ends with `/`.
pub open spec fn is_directory_name(name: Seq<char>) -> bool {
    name.len() > 0 && name.last() == '/'
}

/// Whether a name marks a directory depends only on its last character: any
/// name followed by `/` is a directory, followed by anything else it is not,
/// and the empty name is not.
pub proof fn lemma_directory_by_last_char(name: Seq<char>, c: char)
    ensures
        is_directory_name(name.push(c)) <==> c == '/',
        !is_directory_name(Seq::<char>::empty()),
{
}

/// A nested directory name such as `maps/textures/` is a directory: slashes
/// before the last character do not matter.
pub proof fn lemma_nested_directory(parent: Seq<char>, child: Seq<char>)
    ensures
        is_directory_name(parent + seq!['/'] + child + seq!['/']),
{
}

impl ZipFileEntry {
    pub fn new(
        name: String,
        crc32: u32,
        compressed_size: i64,
        uncompressed_size: i64,
        data_offset: i64,
        compression_type: CompressionType,
    ) -> (entry: Self)
        ensures
            entry.name@ == name@,
            entry.crc32 == crc32,
            entry.compressed_size == compressed_size,
            entry.uncompressed_size == uncompressed_size,
            entry.data_offset == data_offset,
            entry.compression_type == compression_type,
    {
        ZipFileEntry { name, crc32, compressed_size, uncompressed_size, data_offset, compression_type }
    }

    pub fn name(&self) -> (name: &String)
        ensures
            name@ == self.name@,
    {
        &self.name
    }

    pub fn crc32(&self) -> (crc: u32)
        ensures
            crc == self.crc32,
    {
        self.crc32
    }

    pub fn compressed_size(&self) -> (size: i64)
        ensures
            size == self.compressed_size,
    {
        self.compressed_size
    }

    pub fn uncompressed_size(&self) -> (size: i64)
        ensures
            size == self.uncompressed_size,
    {
        self.uncompressed_size
    }

    pub fn data_offset(&self) -> (offset: i64)
        ensures
            offset == self.data_offset,
    {
        self.data_offset
    }

    pub fn compression_type(&self) -> (kind: CompressionType)
        ensures
            kind == self.compression_type,
    {
        self.compression_type
    }

    /// Whether the entry's name ends with `/`, the archive's mark of a directory.
    pub fn is_directory(&self) -> (dir: bool)
        ensures
            dir == is_directory_name(self.name@),
    {
        let name: &str = self.name.as_str();
        let len: usize = name.unicode_len();
        if len == 0 {
            false
        } else {
            name.get_char(len - 1) == '/'
        }
    }
}

/// The central directory of a remote zip archive.
pub struct ZipFile {
    pub entries: Vec<ZipFileEntry>,
}

impl ZipFile {
    pub fn new(entries: Vec<ZipFileEntry>) -> (file: Self)
        ensures
            file.entries@ == entries@,
    {
        ZipFile { entries }
    }

    pub fn entries(&self) -> (entries: &Vec<ZipFileEntry>)
        ensures
            entries@ == self.entries@,
    {
        &self.entries
    }
}

} // verus!
