//! On-demand, integrity-checked retrieval of named binary test assets.
//!
//! Assets are identified by a logical, path-shaped name (for example
//! `"pydicom/liver.dcm"`). A registry maps each name to the expected
//! SHA-256 digest of its stored bytes and to the compression applied to
//! them. Fetching is driven as a small state machine: the caller performs
//! the filesystem and network steps the machine asks for, while the
//! machine itself decides what to do next, verifies digests, and never
//! asks for an install of bytes that were not verified first.

use vstd::prelude::*;

pub mod codec;
pub mod digest;
pub mod engine;
pub mod hex;
pub mod paths;
pub mod registry;
pub mod test_file;
pub mod urls;

verus! {

/// Error type for asset retrieval.
#[derive(Debug)]
pub enum Error {
    /// Returned when the provided name does not exist in the registry.
    NotFound,
    /// Returned when the hash of the downloaded bytes does not match the
    /// registry's expected hash.
    InvalidHash,
    /// Returned when the file cannot be downloaded. Contains the attempted
    /// URL and the transport error, described.
    Download(String),
    /// A filesystem operation failed, described.
    Io(String),
    /// Failed to resolve the data source URL from the environment.
    ResolveUrl(EnvVarError),
    /// Zstandard support is required for this file but is not enabled.
    ZstdRequired,
}

/// Why an environment variable could not be read.
#[derive(Clone, Copy, Debug, PartialEq, Eq, Structural)]
pub enum EnvVarError {
    /// The variable is not present in the environment.
    NotPresent,
    /// The variable is present but its value is not valid unicode.
    NotUnicode,
}

} // verus!
