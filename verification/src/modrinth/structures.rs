//! The parts of Modrinth's API answers that the update logic reads.

use vstd::prelude::*;

verus! {

/// The release channel of a version.
#[derive(Clone, Copy, PartialEq, Eq, Debug, Structural)]
pub enum VersionType {
    Release,
    Beta,
    Alpha,
}

/// The hashes Modrinth gives for a file; either may be missing.
#[derive(Debug)]
pub struct VersionHashes {
    pub sha1: Option<String>,
    pub sha512: Option<String>,
}

impl Clone for VersionHashes {
    fn clone(&self) -> (res: Self)
        ensures
            res == *self,
    {
        let sha1 = match &self.sha1 {
            Some(s) => Some(s.clone()),
            None => None,
        };
        let sha512 = match &self.sha512 {
            Some(s) => Some(s.clone()),
            None => None,
        };
        VersionHashes { sha1, sha512 }
    }
}

/// A downloadable file of a version.
#[derive(Debug)]
pub struct VersionFile {
    pub hashes: VersionHashes,
    pub url: String,
    pub filename: String,
    /// Whether the file is the primary file of its version.
    pub primary: bool,
    /// The size of the file in bytes.
    pub size: usize,
}

impl Clone for VersionFile {
    fn clone(&self) -> (res: Self)
        ensures
            res == *self,
    {
        VersionFile {
            hashes: self.hashes.clone(),
            url: self.url.clone(),
            filename: self.filename.clone(),
            primary: self.primary,
            size: self.size,
        }
    }
}

/// A published version of a project.
#[derive(Debug)]
pub struct Version {
    pub id: String,
    pub project_id: String,
    pub name: String,
    pub version_number: String,
    pub game_versions: Vec<String>,
    pub version_type: VersionType,
    /// The loaders the version works with, in lower case (`"forge"`, `"fabric"`).
    pub loaders: Vec<String>,
    pub files: Vec<VersionFile>,
}

/// Whether two versions are equal field by field (the lists by their items).
pub open spec fn same_version(a: Version, b: Version) -> bool {
    &&& a == (Version { game_versions: a.game_versions, loaders: a.loaders, files: a.files, ..b })
    &&& a.game_versions@ == b.game_versions@
    &&& a.loaders@ == b.loaders@
    &&& a.files@ == b.files@
}

impl Clone for Version {
    fn clone(&self) -> (res: Self)
        ensures
            same_version(res, *self),
    {
        let game_versions = self.game_versions.clone();
        assert(game_versions@ =~= self.game_versions@);
        let loaders = self.loaders.clone();
        assert(loaders@ =~= self.loaders@);
        let files = self.files.clone();
        assert(files@ =~= self.files@);
        Version {
            id: self.id.clone(),
            project_id: self.project_id.clone(),
            name: self.name.clone(),
            version_number: self.version_number.clone(),
            game_versions,
            version_type: self.version_type,
            loaders,
            files,
        }
    }
}

} // verus!
