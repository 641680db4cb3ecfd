//! Files hosted on a CDN, and the check that a downloaded copy is intact.

use vstd::prelude::*;

pub mod downloader;

use crate::mod_file::hash::{spec_hashes_of, HashError};
use crate::mod_file::Hashes;
use crate::modrinth::structures::VersionFile;

verus! {

/// A file hosted on a CDN.
#[derive(Debug, Hash)]
pub struct CdnFile {
    /// The url where the file is hosted.
    pub url: String,
    /// The file's name.
    pub filename: String,
    /// The file's size in bytes.
    pub size: u64,
    /// The file's hashes.
    pub hashes: Option<Hashes>,
}

impl Clone for CdnFile {
    fn clone(&self) -> (res: Self)
        ensures
            res == *self,
    {
        let hashes = match &self.hashes {
            Some(h) => Some(h.clone()),
            None => None,
        };
        CdnFile { url: self.url.clone(), filename: self.filename.clone(), size: self.size, hashes }
    }
}

impl PartialEq for CdnFile {
    fn eq(&self, other: &Self) -> (res: bool) {
        let same_hashes = match (&self.hashes, &other.hashes) {
            (Some(a), Some(b)) => a == b,
            (None, None) => true,
            _ => false,
        };
        self.url == other.url && self.filename == other.filename && self.size == other.size
            && same_hashes
    }
}

impl vstd::std_specs::cmp::PartialEqSpecImpl for CdnFile {
    open spec fn obeys_eq_spec() -> bool {
        true
    }

    open spec fn eq_spec(&self, other: &Self) -> bool {
        &&& self.url@ == other.url@
        &&& self.filename@ == other.filename@
        &&& self.size == other.size
        &&& match (self.hashes, other.hashes) {
            (Some(a), Some(b)) => a.sha1@ == b.sha1@ && a.sha512@ == b.sha512@,
            (None, None) => true,
            _ => false,
        }
    }
}

impl Eq for CdnFile {}

/// The CDN file a Modrinth version file describes.
pub open spec fn cdn_file_of(ver_file: VersionFile) -> CdnFile {
    CdnFile {
        url: ver_file.url,
        filename: ver_file.filename,
        size: ver_file.size as u64,
        hashes: match (ver_file.hashes.sha1, ver_file.hashes.sha512) {
            (Some(sha1), Some(sha512)) => Some(Hashes { sha1, sha512 }),
            _ => None,
        },
    }
}

impl vstd::std_specs::convert::FromSpecImpl<VersionFile> for CdnFile {
    open spec fn obeys_from_spec() -> bool {
        true
    }

    open spec fn from_spec(ver_file: VersionFile) -> Self {
        cdn_file_of(ver_file)
    }
}

impl From<VersionFile> for CdnFile {
    fn from(ver_file: VersionFile) -> (res: Self) {
        let VersionFile { hashes, url, filename, primary: _, size } = ver_file;
        CdnFile { url, filename, size: size as u64, hashes: Hashes::ferinth(hashes) }
    }
}

/// Why a downloaded file was rejected.
#[derive(Debug)]
pub enum ChecksumError {
    /// The file could not be opened.
    FileOpen(std::io::Error),
    /// The size differs; both sizes are in KiB (rounded down).
    InvalidSize { found: u64, expected: u64 },
    /// The file's hashes could not be computed.
    HashGen(HashError),
    /// The hashes differ.
    Mismatch,
}

/// What `compare_hash` answers for a file of `file_size` bytes whose contents
/// are `contents`.
pub open spec fn compare_hash_result(
    file_size: u64,
    contents: Seq<u8>,
    expected_size: u64,
    expected_hash: Hashes,
    res: Result<(), ChecksumError>,
) -> bool {
    if file_size != expected_size {
        res == Err::<(), ChecksumError>(
            ChecksumError::InvalidSize { found: file_size / 1024, expected: expected_size / 1024 },
        )
    } else if spec_hashes_of(contents) != (expected_hash.sha1@, expected_hash.sha512@) {
        res == Err::<(), ChecksumError>(ChecksumError::Mismatch)
    } else {
        res == Ok::<(), ChecksumError>(())
    }
}

/// Checks a downloaded file against the size and hashes it should have:
/// the size is compared first, then both hashes of the contents.
pub fn compare_hash(file_size: u64, contents: &[u8], expected_size: u64, expected_hash: &Hashes) -> (res: Result<(), ChecksumError>)
    ensures
        compare_hash_result(file_size, contents@, expected_size, *expected_hash, res),
{
    if file_size != expected_size {
        return Err(ChecksumError::InvalidSize { found: file_size / 1024, expected: expected_size / 1024 });
    }
    let file_hashes = Hashes::get_hashes_from_bytes(contents);
    if *expected_hash != file_hashes {
        return Err(ChecksumError::Mismatch);
    }
    Ok(())
}

} // verus!
