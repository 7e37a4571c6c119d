//! Test file base data structures.

use vstd::prelude::*;
use vstd::string::StringExecFns;

verus! {

/// How an asset's stored bytes were transformed before upload.
#[derive(Clone, Copy, Debug, PartialEq, Eq, Structural)]
pub enum Compression {
    /// no compression
    Uncompressed,
    /// Zstandard compression
    Zstd,
}

/// Test file descriptor: one entry of the registry.
#[derive(Debug)]
pub struct TestFile {
    /// path identifier of the test file, with `/` as the separator
    pub name: String,
    /// whether the file was subjected to compression
    pub compression: Compression,
    /// SHA-256 hash of the file's stored (post-compression) bytes,
    /// rendered as lowercase hexadecimal
    pub hash: String,
}

/// The name under which an asset is stored remotely: the logical name,
/// suffixed with `.zst` when the stored bytes are Zstandard-compressed.
pub open spec fn spec_real_file_name(t: TestFile) -> Seq<char> {
    match t.compression {
        Compression::Uncompressed => t.name@,
        Compression::Zstd => t.name@ + ".zst"@,
    }
}

impl TestFile {
    /// Build a registry entry from its parts.
    pub fn new(name: String, compression: Compression, hash: String) -> (r: Self)
        ensures
            r.name == name,
            r.compression == compression,
            r.hash == hash,
    {
        TestFile { name, compression, hash }
    }

    /// Build an entry whose stored bytes are not compressed.
    pub fn none(name: String, hash: String) -> (r: Self)
        ensures
            r.name == name,
            r.compression == Compression::Uncompressed,
            r.hash == hash,
    {
        Self::new(name, Compression::Uncompressed, hash)
    }

    /// Build an entry whose stored bytes are Zstandard-compressed.
    pub fn zstd(name: String, hash: String) -> (r: Self)
        ensures
            r.name == name,
            r.compression == Compression::Zstd,
            r.hash == hash,
    {
        Self::new(name, Compression::Zstd, hash)
    }

    /// The name under which the asset is stored remotely.
    pub fn real_file_name(&self) -> (r: String)
        ensures
            r@ == spec_real_file_name(*self),
    {
        match self.compression {
            Compression::Uncompressed => self.name.clone(),
            Compression::Zstd => self.name.clone().concat(".zst"),
        }
    }
}

impl Clone for TestFile {
    /// An entry's copy is equal to the entry.
    fn clone(&self) -> (r: Self)
        ensures
            r == *self,
    {
        TestFile {
            name: self.name.clone(),
            compression: self.compression,
            hash: self.hash.clone(),
        }
    }
}

} // verus!
