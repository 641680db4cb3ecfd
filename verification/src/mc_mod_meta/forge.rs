//! The Forge manifest (`META-INF/mods.toml`).

use std::collections::HashMap;

use vstd::prelude::*;

use super::archive::{read_entry_text, spec_zip_entry_names, spec_zip_entry_text};
use super::error::{Error, LibResult};
use super::{get_modloader, modloader_of_names, ModLoader, FORGE_META_PATH};

verus! {

/// The contents of a `mods.toml` file.
#[derive(Clone)]
pub struct ForgeManifest {
    pub mod_loader: String,
    pub loader_version: String,
    pub license: String,
    pub issue_tracker_url: String,
    pub show_as_resource_pack: Option<bool>,
    pub mods: Vec<ForgeModEntry>,
    pub dependencies: HashMap<String, Vec<Dependency>>,
}

/// What `ForgeManifest::manifest_text` answers for an archive.
pub open spec fn forge_text_result(archive: Seq<u8>, res: LibResult<String>) -> bool {
    match spec_zip_entry_names(archive) {
        None => res matches Err(Error::ZipError(_)),
        Some(names) => match modloader_of_names(names) {
            None => res matches Err(Error::InvalidModFile),
            Some(ModLoader::Fabric) => res matches Err(Error::IncorrectModloader),
            Some(_) => match spec_zip_entry_text(archive, FORGE_META_PATH@) {
                Some(text) => res matches Ok(s) && s@ == text,
                None => res matches Err(e) && (e is ZipError || e is IoError),
            },
        },
    }
}

impl ForgeManifest {
    /// Reads the text of the Forge manifest of a mod archive: the archive
    /// must hold Forge metadata (alone or together with Fabric).
    pub fn manifest_text(archive: &[u8]) -> (res: LibResult<String>)
        ensures
            forge_text_result(archive@, res),
    {
        let modloader = get_modloader(archive)?;
        if modloader == ModLoader::Forge || modloader == ModLoader::Both {
            read_entry_text(archive, FORGE_META_PATH)
        } else {
            Err(Error::IncorrectModloader)
        }
    }
}

/// One mod declared in a Forge manifest.
#[derive(Clone)]
pub struct ForgeModEntry {
    pub mod_id: String,
    pub version: String,
    pub display_name: String,
    pub update_json_url: Option<String>,
    pub display_url: Option<String>,
    pub logo_file: Option<String>,
    pub credits: Option<String>,
    pub authors: Option<String>,
    pub description: String,
}

/// A dependency of a Forge mod.
#[derive(Clone)]
pub struct Dependency {
    pub mod_id: String,
    pub mandatory: bool,
    pub version_range: String,
    pub ordering: DependencyOrdering,
}

/// Whether a dependency loads before or after the mod.
#[derive(Clone, Copy, PartialEq, Eq, Debug, Structural)]
pub enum DependencyOrdering {
    /// No ordering constraint (`NONE` in the manifest).
    NoOrder,
    Before,
    After,
}

/// The side a Forge mod runs on.
#[derive(Clone, Copy, PartialEq, Eq, Debug, Structural)]
pub enum Environment {
    Both,
    Client,
    Server,
}

} // verus!
