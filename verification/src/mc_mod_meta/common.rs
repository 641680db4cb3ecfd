//! The loader-independent description of a mod.

use vstd::prelude::*;

use super::fabric::FabricManifest;
use super::forge::ForgeModEntry;
use super::ModLoader;

verus! {

/// A mod, as far as its loader does not matter.
#[derive(Debug, Clone)]
pub struct MinecraftMod {
    pub id: String,
    pub version: String,
    pub display_name: String,
    pub modloader: ModLoader,
}

impl vstd::std_specs::convert::FromSpecImpl<FabricManifest> for MinecraftMod {
    open spec fn obeys_from_spec() -> bool {
        true
    }

    open spec fn from_spec(manifest: FabricManifest) -> Self {
        MinecraftMod {
            id: manifest.id,
            version: manifest.version,
            display_name: match manifest.name {
                Some(name) => name,
                None => manifest.id,
            },
            modloader: ModLoader::Fabric,
        }
    }
}

impl From<FabricManifest> for MinecraftMod {
    fn from(manifest: FabricManifest) -> (res: Self) {
        let mod_name = match manifest.name {
            Some(name) => name,
            None => manifest.id.clone(),
        };
        MinecraftMod {
            id: manifest.id,
            version: manifest.version,
            display_name: mod_name,
            modloader: ModLoader::Fabric,
        }
    }
}

impl vstd::std_specs::convert::FromSpecImpl<ForgeModEntry> for MinecraftMod {
    open spec fn obeys_from_spec() -> bool {
        true
    }

    open spec fn from_spec(mod_entry: ForgeModEntry) -> Self {
        MinecraftMod {
            id: mod_entry.mod_id,
            version: mod_entry.version,
            display_name: mod_entry.display_name,
            modloader: ModLoader::Forge,
        }
    }
}

impl From<ForgeModEntry> for MinecraftMod {
    fn from(mod_entry: ForgeModEntry) -> (res: Self) {
        MinecraftMod {
            id: mod_entry.mod_id,
            version: mod_entry.version,
            display_name: mod_entry.display_name,
            modloader: ModLoader::Forge,
        }
    }
}

} // verus!
