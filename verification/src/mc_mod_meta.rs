//! Reading the metadata of Minecraft mod archives (Forge and Fabric).

use vstd::prelude::*;

pub mod archive;
pub mod common;
pub mod error;
pub mod fabric;
pub mod forge;

use self::archive::{read_entry_names, spec_zip_entry_names};
use self::error::{Error, LibResult};

verus! {

/// Path of the Fabric manifest inside a mod archive.
pub const FABRIC_META_PATH: &'static str = "fabric.mod.json";

/// Path of the Forge manifest inside a mod archive.
pub const FORGE_META_PATH: &'static str = "META-INF/mods.toml";

/// The mod loader(s) that an archive declares itself for.
#[derive(Clone, Copy, PartialEq, Eq, Debug, Structural)]
pub enum ModLoader {
    Forge,
    Fabric,
    Both,
}

/// The mod loader an archive is for, given which of the two manifests it holds.
pub open spec fn modloader_for(has_forge: bool, has_fabric: bool) -> Option<ModLoader> {
    if has_forge && has_fabric {
        Some(ModLoader::Both)
    } else if has_forge {
        Some(ModLoader::Forge)
    } else if has_fabric {
        Some(ModLoader::Fabric)
    } else {
        None
    }
}

/// The mod loader an archive with the entry names `names` is for.
pub open spec fn modloader_of_names(names: Set<Seq<char>>) -> Option<ModLoader> {
    modloader_for(names.contains(FORGE_META_PATH@), names.contains(FABRIC_META_PATH@))
}

/// What `get_modloader` answers for an archive whose entry names are `names`.
pub open spec fn modloader_result(names: Set<Seq<char>>, res: LibResult<ModLoader>) -> bool {
    match modloader_of_names(names) {
        Some(l) => res == Ok::<ModLoader, Error>(l),
        None => res matches Err(Error::InvalidModFile),
    }
}

/// Whether `names` holds `name`.
fn contains_name(names: &Vec<String>, name: &str) -> (res: bool)
    ensures
        res == names@.map_values(|s: String| s@).contains(name@),
{
    let ghost views = names@.map_values(|s: String| s@);
    let mut i: usize = 0;
    while i < names.len()
        invariant
            i <= names.len(),
            views == names@.map_values(|s: String| s@),
            forall|j: int| 0 <= j < i ==> views[j] != name@,
        decreases names.len() - i,
    {
        if crate::text::str_eq(names[i].as_str(), name) {
            assert(views[i as int] == name@);
            return true;
        }
        i = i + 1;
    }
    false
}

/// Decides the mod loader from the list of entry names of an archive:
/// both manifests make `Both`, one makes its loader, none is an invalid mod.
pub fn modloader_from_names(names: &Vec<String>) -> (res: LibResult<ModLoader>)
    ensures
        modloader_result(names@.map_values(|s: String| s@).to_set(), res),
{
    let has_forge = contains_name(names, FORGE_META_PATH);
    let has_fabric = contains_name(names, FABRIC_META_PATH);
    if has_forge && has_fabric {
        Ok(ModLoader::Both)
    } else if has_forge {
        Ok(ModLoader::Forge)
    } else if has_fabric {
        Ok(ModLoader::Fabric)
    } else {
        Err(Error::InvalidModFile)
    }
}

/// Reads which mod loader the zip archive `archive` is made for.
pub fn get_modloader(archive: &[u8]) -> (res: LibResult<ModLoader>)
    ensures
        match spec_zip_entry_names(archive@) {
            None => res matches Err(Error::ZipError(_)),
            Some(names) => modloader_result(names, res),
        },
{
    match read_entry_names(archive) {
        Ok(names) => modloader_from_names(&names),
        Err(e) => Err(Error::ZipError(e)),
    }
}

} // verus!
