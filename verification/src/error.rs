//! Errors of the mod manager.

use vstd::prelude::*;
use vstd::string::*;

use crate::mc_mod_meta::error::Error as MetaError;
use crate::mod_file::hash::HashError;

verus! {

pub type LibResult<T> = Result<T, Error>;

/// The ways an operation of the mod manager can fail.
#[derive(Debug)]
pub enum Error {
    // Library errors
    /// The entry does not contain any Modrinth data.
    NoModrinthDataError,
    /// There is no valid version for this entry.
    InvalidLatestVersionError,
    /// No mods were found meeting the specified requirements.
    ModrinthEmptyVersionSearchResult,
    /// No mods were found meeting the specified requirements.
    ModrinthEmptyFileList,
    /// The mod already exists in the folder.
    EntryAlreadyInList,
    /// The id or slug provided is not valid.
    NotValidModrinthId,
    /// The cache file could not be parsed.
    FailedToParseEntryCache { err: serde_json::Error },
    /// The hashes of a file could not be computed.
    ParseHash(HashError),
    // Shared errors
    IoError(std::io::Error),
    SerdeError(serde_json::Error),
    /// A web request for `item` failed.
    ReqwestError { inner: reqwest::Error, item: String },
    // Manifest metadata errors
    MetadataTomlError,
    MetadataZipError,
    MetadataInvalidModFile,
    MetadataIncorrectModloader,
    // Modrinth API errors
    FerinthBase62Error,
    FerinthNotSHA1Error,
    FerinthURLParseError,
    /// The rate limit was exceeded; wait this many seconds.
    FerinthRatelimitExceeded(usize),
    // Game version metadata errors
    DaedalusChecksumFailure { hash: String, url: String, tries: u32 },
    DaedalusTaskError(tokio::task::JoinError),
    DaedalusParseError(String),
    /// The file could not be moved to the trash; the message says why.
    TrashFailedDelete(String),
    /// A zip archive could not be read.
    ZipError(zip::result::ZipError),
    /// An image could not be decoded.
    ImageError(image::ImageError),
}

/// Which error of the mod manager an error of the metadata reader becomes.
pub open spec fn from_meta_error(error: MetaError) -> Error {
    match error {
        MetaError::IoError(err) => Error::IoError(err),
        MetaError::SerdeError(err) => Error::SerdeError(err),
        MetaError::TomlError(_) => Error::MetadataTomlError,
        MetaError::ZipError(_) => Error::MetadataZipError,
        MetaError::InvalidModFile => Error::MetadataInvalidModFile,
        MetaError::IncorrectModloader => Error::MetadataIncorrectModloader,
    }
}

impl vstd::std_specs::convert::FromSpecImpl<MetaError> for Error {
    open spec fn obeys_from_spec() -> bool {
        true
    }

    open spec fn from_spec(error: MetaError) -> Self {
        from_meta_error(error)
    }
}

impl From<MetaError> for Error {
    fn from(error: MetaError) -> (res: Self) {
        match error {
            MetaError::IoError(err) => Error::IoError(err),
            MetaError::SerdeError(err) => Error::SerdeError(err),
            MetaError::TomlError(_) => Error::MetadataTomlError,
            MetaError::ZipError(_) => Error::MetadataZipError,
            MetaError::InvalidModFile => Error::MetadataInvalidModFile,
            MetaError::IncorrectModloader => Error::MetadataIncorrectModloader,
        }
    }
}

impl vstd::std_specs::convert::FromSpecImpl<HashError> for Error {
    open spec fn obeys_from_spec() -> bool {
        true
    }

    open spec fn from_spec(error: HashError) -> Self {
        Error::ParseHash(error)
    }
}

impl From<HashError> for Error {
    fn from(error: HashError) -> (res: Self) {
        Error::ParseHash(error)
    }
}

impl vstd::std_specs::convert::FromSpecImpl<std::io::Error> for Error {
    open spec fn obeys_from_spec() -> bool {
        true
    }

    open spec fn from_spec(error: std::io::Error) -> Self {
        Error::IoError(error)
    }
}

impl From<std::io::Error> for Error {
    fn from(error: std::io::Error) -> (res: Self) {
        Error::IoError(error)
    }
}

impl vstd::std_specs::convert::FromSpecImpl<serde_json::Error> for Error {
    open spec fn obeys_from_spec() -> bool {
        true
    }

    open spec fn from_spec(error: serde_json::Error) -> Self {
        Error::SerdeError(error)
    }
}

impl From<serde_json::Error> for Error {
    fn from(error: serde_json::Error) -> (res: Self) {
        Error::SerdeError(error)
    }
}

impl vstd::std_specs::convert::FromSpecImpl<tokio::task::JoinError> for Error {
    open spec fn obeys_from_spec() -> bool {
        true
    }

    open spec fn from_spec(error: tokio::task::JoinError) -> Self {
        Error::DaedalusTaskError(error)
    }
}

impl From<tokio::task::JoinError> for Error {
    fn from(error: tokio::task::JoinError) -> (res: Self) {
        Error::DaedalusTaskError(error)
    }
}

impl vstd::std_specs::convert::FromSpecImpl<zip::result::ZipError> for Error {
    open spec fn obeys_from_spec() -> bool {
        true
    }

    open spec fn from_spec(error: zip::result::ZipError) -> Self {
        Error::ZipError(error)
    }
}

impl From<zip::result::ZipError> for Error {
    fn from(error: zip::result::ZipError) -> (res: Self) {
        Error::ZipError(error)
    }
}

impl vstd::std_specs::convert::FromSpecImpl<image::ImageError> for Error {
    open spec fn obeys_from_spec() -> bool {
        true
    }

    open spec fn from_spec(error: image::ImageError) -> Self {
        Error::ImageError(error)
    }
}

impl From<image::ImageError> for Error {
    fn from(error: image::ImageError) -> (res: Self) {
        Error::ImageError(error)
    }
}

/// `reqwest::Error::url`, as text. Nothing is claimed of the result: it
/// depends on the request the error came from, which stays opaque here.
#[verifier::external_body]
fn request_url(err: &reqwest::Error) -> (res: Option<String>) {
    err.url().map(|url| url.as_str().to_string())
}

/// The error for a failed web request, named after its url when it has one
/// and after `unknown` otherwise.
pub fn request_error(inner: reqwest::Error, url: Option<String>, unknown: &str) -> (res: Error)
    ensures
        res matches Error::ReqwestError { inner: i, item } && i == inner && match url {
            Some(u) => item == u,
            None => item@ == unknown@,
        },
{
    let item = match url {
        Some(u) => u,
        None => String::from_str(unknown),
    };
    Error::ReqwestError { inner, item }
}

impl Error {
    /// The error for a failed web request, named after its url (or
    /// "Unknown" when the request has none).
    pub fn from_reqwest(err: reqwest::Error) -> (res: Error)
        ensures
            res matches Error::ReqwestError { inner: i, item } && i == err,
    {
        let url = request_url(&err);
        request_error(err, url, "Unknown")
    }
}


/// The ways a call of the Modrinth client can fail, as the client reports them.
#[derive(Debug)]
pub enum FerinthError {
    /// A given string was not base62 compliant.
    NotBase62,
    /// A given string was not SHA-1 compliant.
    NotSHA1,
    /// The rate limit was exceeded; wait this many seconds.
    RateLimitExceeded(usize),
    ReqwestError(reqwest::Error),
    JSONError(serde_json::Error),
}

/// The ways fetching the game version metadata can fail, as the metadata
/// client reports them.
#[derive(Debug)]
pub enum DaedalusError {
    ChecksumFailure { hash: String, url: String, tries: u32 },
    SerdeError(serde_json::Error),
    FetchError { inner: reqwest::Error, item: String },
    TaskError(tokio::task::JoinError),
    ParseError(String),
}

/// Which error of the mod manager an error of the metadata client becomes.
pub open spec fn from_daedalus_error(err: DaedalusError) -> Error {
    match err {
        DaedalusError::ChecksumFailure { hash, url, tries } => Error::DaedalusChecksumFailure { hash, url, tries },
        DaedalusError::SerdeError(error) => Error::SerdeError(error),
        DaedalusError::FetchError { inner, item } => Error::ReqwestError { inner, item },
        DaedalusError::TaskError(error) => Error::DaedalusTaskError(error),
        DaedalusError::ParseError(text) => Error::DaedalusParseError(text),
    }
}

impl Error {
    /// The error for a failed call of the Modrinth client; a failed web
    /// request is named after its url (or "Unknown (Ferinth)").
    pub fn from_ferinth(err: FerinthError) -> (res: Error)
        ensures
            match err {
                FerinthError::NotBase62 => res is FerinthBase62Error,
                FerinthError::NotSHA1 => res is FerinthNotSHA1Error,
                FerinthError::RateLimitExceeded(seconds) => res == Error::FerinthRatelimitExceeded(seconds),
                FerinthError::ReqwestError(inner) => res matches Error::ReqwestError { inner: i, .. } && i == inner,
                FerinthError::JSONError(error) => res == Error::SerdeError(error),
            },
    {
        match err {
            FerinthError::NotBase62 => Error::FerinthBase62Error,
            FerinthError::NotSHA1 => Error::FerinthNotSHA1Error,
            FerinthError::RateLimitExceeded(seconds) => Error::FerinthRatelimitExceeded(seconds),
            FerinthError::ReqwestError(inner) => {
                let url = request_url(&inner);
                request_error(inner, url, "Unknown (Ferinth)")
            },
            FerinthError::JSONError(error) => Error::SerdeError(error),
        }
    }

    /// The error for a failed fetch of the game version metadata.
    pub fn from_daedalus(err: DaedalusError) -> (res: Error)
        ensures
            res == from_daedalus_error(err),
    {
        match err {
            DaedalusError::ChecksumFailure { hash, url, tries } => Error::DaedalusChecksumFailure { hash, url, tries },
            DaedalusError::SerdeError(error) => Error::SerdeError(error),
            DaedalusError::FetchError { inner, item } => Error::ReqwestError { inner, item },
            DaedalusError::TaskError(error) => Error::DaedalusTaskError(error),
            DaedalusError::ParseError(text) => Error::DaedalusParseError(text),
        }
    }
}

} // verus!
