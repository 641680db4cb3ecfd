//! The Fabric manifest (`fabric.mod.json`).

use std::collections::HashMap;

use vstd::prelude::*;

use super::archive::{read_entry_text, spec_zip_entry_names, spec_zip_entry_text};
use super::error::{Error, LibResult};
use super::{get_modloader, modloader_of_names, ModLoader, FABRIC_META_PATH};

verus! {

/// The contents of a `fabric.mod.json` file.
#[derive(Clone)]
pub struct FabricManifest {
    pub schema_version: i32,
    pub id: String,
    pub version: String,
    // Mod loading
    pub environment: Option<Environment>,
    pub entrypoints: Option<Entrypoints>,
    pub jars: Option<Vec<JarFilePath>>,
    pub language_adapters: Option<HashMap<String, String>>,
    pub mixins: Option<Vec<Mixin>>,
    pub access_widener: Option<String>,
    // Dependency resolution
    pub depends: Option<HashMap<String, DependencyVersion>>,
    pub recommends: Option<HashMap<String, DependencyVersion>>,
    pub suggests: Option<HashMap<String, DependencyVersion>>,
    pub breaks: Option<HashMap<String, DependencyVersion>>,
    pub conflicts: Option<HashMap<String, DependencyVersion>>,
    // Metadata
    pub name: Option<String>,
    pub description: Option<String>,
    pub contact: Option<ContactObject>,
    pub authors: Option<Vec<Author>>,
    /// Same layout as `authors`.
    pub contributors: Option<Vec<Author>>,
    pub license: Option<License>,
    pub icon: Option<String>,
    /// Free-form data other mods read.
    pub custom: Option<HashMap<String, serde_json::Value>>,
}

/// What `FabricManifest::manifest_text` answers for an archive.
pub open spec fn fabric_text_result(archive: Seq<u8>, res: LibResult<String>) -> bool {
    match spec_zip_entry_names(archive) {
        None => res matches Err(Error::ZipError(_)),
        Some(names) => match modloader_of_names(names) {
            None => res matches Err(Error::InvalidModFile),
            Some(ModLoader::Forge) => res matches Err(Error::IncorrectModloader),
            Some(_) => match spec_zip_entry_text(archive, FABRIC_META_PATH@) {
                Some(text) => res matches Ok(s) && s@ == text,
                None => res matches Err(e) && (e is ZipError || e is IoError),
            },
        },
    }
}

impl FabricManifest {
    /// Reads the text of the Fabric manifest of a mod archive: the archive
    /// must be made for Fabric (alone or together with Forge).
    pub fn manifest_text(archive: &[u8]) -> (res: LibResult<String>)
        ensures
            fabric_text_result(archive@, res),
    {
        let modloader = get_modloader(archive)?;
        if modloader == ModLoader::Fabric || modloader == ModLoader::Both {
            read_entry_text(archive, FABRIC_META_PATH)
        } else {
            Err(Error::IncorrectModloader)
        }
    }
}

// Mod loading

/// The side a mod runs on.
#[derive(Clone, Copy, PartialEq, Eq, Debug, Structural)]
pub enum Environment {
    Both,
    Client,
    Server,
}

/// The entry points of a Fabric mod.
#[derive(Clone)]
pub struct Entrypoints {
    pub main: Vec<Entrypoint>,
    pub client: Vec<Entrypoint>,
    pub server: Vec<Entrypoint>,
    pub prelaunch: Vec<Entrypoint>,
    /// Custom entry points added by other mods.
    pub other: HashMap<String, serde_json::Value>,
}

#[derive(Clone)]
pub enum Entrypoint {
    JavaEntrypoint(String),
    AdapterEntrypoint(AdapterEntrypoint),
}

#[derive(Clone)]
pub struct AdapterEntrypoint {
    pub adapter: String,
    pub value: String,
}

#[derive(Clone)]
pub struct JarFilePath {
    pub file: String,
}

#[derive(Clone)]
pub enum Mixin {
    Path(String),
    MixinObject(MixinObject),
}

#[derive(Clone)]
pub struct MixinObject {
    pub config: String,
    pub environment: Environment,
}

// Dependency resolution

#[derive(Clone)]
pub enum DependencyVersion {
    Single(String),
    Multiple(Vec<String>),
}

// Metadata

#[derive(Clone)]
pub struct ContactObject {
    pub email: Option<String>,
    pub irc: Option<String>,
    pub homepage: Option<String>,
    pub issues: Option<String>,
    pub sources: Option<String>,
    pub other: HashMap<String, serde_json::Value>,
}

/// An author: a bare name or a name with contact information.
#[derive(Clone)]
pub enum Author {
    Name(String),
    AuthorObject(AuthorObject),
}

#[derive(Clone)]
pub struct AuthorObject {
    pub name: String,
    pub contact: String,
}

#[derive(Clone)]
pub enum License {
    Single(String),
    Multiple(Vec<String>),
}

} // verus!
