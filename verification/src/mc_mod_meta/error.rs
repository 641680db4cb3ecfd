//! Errors of the metadata reader.

use vstd::prelude::*;

verus! {

/// The ways reading a mod archive's metadata can fail.
#[derive(Debug)]
pub enum Error {
    IoError(std::io::Error),
    SerdeError(serde_json::Error),
    TomlError(toml::de::Error),
    ZipError(zip::result::ZipError),
    /// The archive holds neither a Forge nor a Fabric manifest.
    InvalidModFile,
    /// The archive is not made for the requested mod loader.
    IncorrectModloader,
}

pub type LibResult<T> = Result<T, Error>;

} // verus!
