//! Trusted access to the entries of a zip archive held in memory.

use vstd::prelude::*;

use super::error::Error;

verus! {

/// The set of entry names of the zip archive `archive`, or `None` when the
/// `zip` crate does not accept it as an archive.
pub uninterp spec fn spec_zip_entry_names(archive: Seq<u8>) -> Option<Set<Seq<char>>>;

/// The text of the entry `name` of the zip archive `archive`, or `None` when
/// the archive, the entry or its contents cannot be read as UTF-8 text.
pub uninterp spec fn spec_zip_entry_text(archive: Seq<u8>, name: Seq<char>) -> Option<Seq<char>>;

/// The bytes of the entry `name` of the zip archive `archive`, or `None` when
/// the archive or the entry cannot be read.
pub uninterp spec fn spec_zip_entry_bytes(archive: Seq<u8>, name: Seq<char>) -> Option<Seq<u8>>;

/// Opens `archive` with `zip::ZipArchive::new` and lists `file_names()`.
/// Claimed: the call fails or succeeds as a function of the bytes alone, and on
/// success the listed names are exactly the archive's name set. The order of
/// the list is not stated: the crate walks a `HashMap`.
#[verifier::external_body]
pub(crate) fn read_entry_names(archive: &[u8]) -> (res: Result<Vec<String>, zip::result::ZipError>)
    ensures
        match res {
            Ok(names) => spec_zip_entry_names(archive@) == Some(
                names@.map_values(|s: String| s@).to_set(),
            ),
            Err(_) => spec_zip_entry_names(archive@) is None,
        },
{
    let zip = zip::ZipArchive::new(std::io::Cursor::new(archive))?;
    Ok(zip.file_names().map(|s| s.to_string()).collect())
}

/// Opens `archive` with `zip::ZipArchive::new`, looks the entry up with
/// `by_name` and reads it with `read_to_string`. `by_name` unwraps the
/// password check of an entry that carries AES data without being flagged
/// as encrypted; such an entry is first recognised with `by_name_decrypt`
/// (which, for an entry not flagged as encrypted, ignores the password and
/// answers `InvalidPassword` exactly there) and refused with the crate's own
/// "password required" error. The crate is built without its `aes-crypto`
/// feature, so that probe starts no AES decryption; on a ZipCrypto entry its
/// result is dropped unread, and `by_name` then refuses the entry as the
/// crate always does. Claimed: the text read is a function of the archive
/// bytes and the entry name; an archive or lookup failure comes back as
/// `Error::ZipError`, a read failure as `Error::IoError`. Which of the two
/// happens on a given input is not stated.
#[verifier::external_body]
pub(crate) fn read_entry_text(archive: &[u8], name: &str) -> (res: Result<String, Error>)
    ensures
        match res {
            Ok(text) => spec_zip_entry_text(archive@, name@) == Some(text@),
            Err(e) => spec_zip_entry_text(archive@, name@) is None && (e is ZipError || e is IoError),
        },
{
    let mut zip = zip::ZipArchive::new(std::io::Cursor::new(archive)).map_err(Error::ZipError)?;
    if let Ok(Err(_)) = zip.by_name_decrypt(name, b"") {
        return Err(Error::ZipError(zip::result::ZipError::UnsupportedArchive(zip::result::ZipError::PASSWORD_REQUIRED)));
    }
    let mut file = zip.by_name(name).map_err(Error::ZipError)?;
    let mut buf = String::new();
    std::io::Read::read_to_string(&mut file, &mut buf).map_err(Error::IoError)?;
    Ok(buf)
}

/// Opens `archive` with `zip::ZipArchive::new`, looks the entry up with
/// `by_name` (after the same probe as `read_entry_text`) and reads it with
/// `read_to_end`. Claimed: the bytes read are a function of the archive bytes
/// and the entry name; an archive or lookup failure comes back as
/// `Error::ZipError`, a read failure as `Error::IoError`.
#[verifier::external_body]
pub(crate) fn read_entry_bytes(archive: &[u8], name: &str) -> (res: Result<Vec<u8>, Error>)
    ensures
        match res {
            Ok(bytes) => spec_zip_entry_bytes(archive@, name@) == Some(bytes@),
            Err(e) => spec_zip_entry_bytes(archive@, name@) is None && (e is ZipError || e is IoError),
        },
{
    let mut zip = zip::ZipArchive::new(std::io::Cursor::new(archive)).map_err(Error::ZipError)?;
    if let Ok(Err(_)) = zip.by_name_decrypt(name, b"") {
        return Err(Error::ZipError(zip::result::ZipError::UnsupportedArchive(zip::result::ZipError::PASSWORD_REQUIRED)));
    }
    let mut file = zip.by_name(name).map_err(Error::ZipError)?;
    let mut buf = Vec::new();
    std::io::Read::read_to_end(&mut file, &mut buf).map_err(Error::IoError)?;
    Ok(buf)
}

} // verus!
