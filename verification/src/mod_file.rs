//! Mod files, the mods inside them, and where they come from.

use vstd::prelude::*;
use vstd::string::*;

pub mod from_file;
pub mod hash;
pub mod version;

pub use self::hash::Hashes;

use crate::cdn_file::CdnFile;
use crate::mc_mod_meta::common::MinecraftMod;
use crate::mc_mod_meta::fabric::{Author, FabricManifest};
use crate::mc_mod_meta::forge::ForgeModEntry;

verus! {

/// One mod inside a mod file.
#[derive(Debug)]
pub struct ModEntry {
    pub id: String,
    pub version: String,
    /// A version number picked out of `version`, once it has been computed.
    pub normalized_version: Option<String>,
    pub display_name: String,
    pub description: Option<String>,
    pub authors: Option<String>,
    pub modloader: ModLoader,
    /// The mod's icon as RGBA pixels, when the archive has one.
    pub icon: Option<Vec<u8>>,
}

/// The mod loader a mod is for.
#[derive(Clone, Copy, Debug, PartialEq, Eq, Structural)]
pub enum ModLoader {
    Forge,
    Fabric,
    Both,
}

impl Default for ModLoader {
    fn default() -> (res: Self)
        ensures
            res == ModLoader::Both,
    {
        ModLoader::Both
    }
}

/// The name a loader is shown under.
pub open spec fn modloader_name(loader: ModLoader) -> Seq<char> {
    match loader {
        ModLoader::Forge => "Forge"@,
        ModLoader::Fabric => "Fabric"@,
        ModLoader::Both => "Both"@,
    }
}

/// The name Modrinth knows a loader by (the shown name in lower case).
pub open spec fn modloader_id(loader: ModLoader) -> Seq<char> {
    match loader {
        ModLoader::Forge => "forge"@,
        ModLoader::Fabric => "fabric"@,
        ModLoader::Both => "both"@,
    }
}

impl ModLoader {
    /// The name the loader is shown under.
    pub fn to_display_str(&self) -> (res: &'static str)
        ensures
            res@ == modloader_name(*self),
    {
        match self {
            ModLoader::Forge => "Forge",
            ModLoader::Fabric => "Fabric",
            ModLoader::Both => "Both",
        }
    }

    /// The name Modrinth knows the loader by.
    pub fn as_str(&self) -> (res: &'static str)
        ensures
            res@ == modloader_id(*self),
    {
        match self {
            ModLoader::Forge => "forge",
            ModLoader::Fabric => "fabric",
            ModLoader::Both => "both",
        }
    }
}

/// The loader of the metadata reader seen as a loader of the mod list.
pub open spec fn from_meta_loader(loader: crate::mc_mod_meta::ModLoader) -> ModLoader {
    match loader {
        crate::mc_mod_meta::ModLoader::Forge => ModLoader::Forge,
        crate::mc_mod_meta::ModLoader::Fabric => ModLoader::Fabric,
        crate::mc_mod_meta::ModLoader::Both => ModLoader::Both,
    }
}

impl vstd::std_specs::convert::FromSpecImpl<crate::mc_mod_meta::ModLoader> for ModLoader {
    open spec fn obeys_from_spec() -> bool {
        true
    }

    open spec fn from_spec(loader: crate::mc_mod_meta::ModLoader) -> Self {
        from_meta_loader(loader)
    }
}

impl From<crate::mc_mod_meta::ModLoader> for ModLoader {
    fn from(modloader: crate::mc_mod_meta::ModLoader) -> (res: Self) {
        match modloader {
            crate::mc_mod_meta::ModLoader::Forge => ModLoader::Forge,
            crate::mc_mod_meta::ModLoader::Fabric => ModLoader::Fabric,
            crate::mc_mod_meta::ModLoader::Both => ModLoader::Both,
        }
    }
}

/// The platforms a mod file is known on.
#[derive(Debug)]
pub struct Sources {
    pub curseforge: Option<CurseForgeData>,
    pub modrinth: Option<ModrinthData>,
}

impl Default for Sources {
    fn default() -> (res: Self)
        ensures
            res == (Sources { curseforge: None, modrinth: None }),
    {
        Sources { curseforge: None, modrinth: None }
    }
}

impl Clone for Sources {
    fn clone(&self) -> (res: Self)
        ensures
            res == *self,
    {
        let curseforge = match &self.curseforge {
            Some(c) => Some(c.clone()),
            None => None,
        };
        let modrinth = match &self.modrinth {
            Some(m) => Some(m.clone()),
            None => None,
        };
        Sources { curseforge, modrinth }
    }
}

/// What is known of a file on CurseForge (nothing yet).
#[derive(Debug)]
pub struct CurseForgeData;

impl Clone for CurseForgeData {
    fn clone(&self) -> (res: Self)
        ensures
            res == *self,
    {
        CurseForgeData
    }
}

/// What is known of a file on Modrinth.
#[derive(Debug)]
pub struct ModrinthData {
    pub project_id: String,
    /// The version the local file is, when known.
    pub version_id: Option<String>,
    /// The file to download to update, when an update was found.
    pub cdn_file: Option<CdnFile>,
}

impl Clone for ModrinthData {
    fn clone(&self) -> (res: Self)
        ensures
            res == *self,
    {
        let version_id = match &self.version_id {
            Some(v) => Some(v.clone()),
            None => None,
        };
        let cdn_file = match &self.cdn_file {
            Some(c) => Some(c.clone()),
            None => None,
        };
        ModrinthData { project_id: self.project_id.clone(), version_id, cdn_file }
    }
}

/// Whether a file is up to date.
#[derive(Clone, Copy, Debug, PartialEq, Eq, Structural)]
pub enum FileState {
    Current,
    Outdated,
    Invalid,
    Local,
}

/// Where the updates of a file come from.
#[derive(Clone, Copy, Debug, PartialEq, Eq, Structural)]
pub enum CurrentSource {
    /// No source chosen yet (shown as `None`).
    NoSource,
    Local,
    Modrinth,
    CurseForge,
}

/// The name a source is shown under.
pub open spec fn source_name(source: CurrentSource) -> Seq<char> {
    match source {
        CurrentSource::NoSource => "None"@,
        CurrentSource::Local => "Local"@,
        CurrentSource::Modrinth => "Modrinth"@,
        CurrentSource::CurseForge => "CurseForge"@,
    }
}

impl CurrentSource {
    /// The name the source is shown under.
    pub fn to_display_str(&self) -> (res: &'static str)
        ensures
            res@ == source_name(*self),
    {
        match self {
            CurrentSource::NoSource => "None",
            CurrentSource::Local => "Local",
            CurrentSource::Modrinth => "Modrinth",
            CurrentSource::CurseForge => "CurseForge",
        }
    }
}

/// What the manager knows of a file besides its contents.
#[derive(Debug)]
pub struct ModFileData {
    pub state: FileState,
    pub sourced_from: CurrentSource,
    /// The loaders of the file's mods.
    pub loaders: Vec<ModLoader>,
    pub sources: Sources,
}

/// A mod file (a `.jar` archive) in the mods folder.
#[derive(Debug)]
pub struct ModFile {
    pub entries: Vec<ModEntry>,
    pub data: ModFileData,
    pub hashes: Hashes,
    pub path: String,
}

/// Whether two optional pixel buffers hold the same pixels.
pub open spec fn same_icon(a: Option<Vec<u8>>, b: Option<Vec<u8>>) -> bool {
    match (a, b) {
        (Some(x), Some(y)) => x@ == y@,
        (None, None) => true,
        _ => false,
    }
}

/// Whether two entries are equal field by field (the icons by their pixels).
pub open spec fn same_entry(a: ModEntry, b: ModEntry) -> bool {
    &&& a == (ModEntry { icon: a.icon, ..b })
    &&& same_icon(a.icon, b.icon)
}

/// Whether two file data are equal field by field (the loaders by their list).
pub open spec fn same_data(a: ModFileData, b: ModFileData) -> bool {
    &&& a == (ModFileData { loaders: a.loaders, ..b })
    &&& a.loaders@ == b.loaders@
}

/// Whether two files are equal field by field (their entries and data as above).
pub open spec fn same_file(a: ModFile, b: ModFile) -> bool {
    &&& a == (ModFile { entries: a.entries, data: a.data, ..b })
    &&& a.entries@.len() == b.entries@.len()
    &&& forall|i: int| 0 <= i < a.entries@.len() ==> same_entry(#[trigger] a.entries@[i], b.entries@[i])
    &&& same_data(a.data, b.data)
}

impl Clone for ModEntry {
    fn clone(&self) -> (res: Self)
        ensures
            same_entry(res, *self),
    {
        let normalized_version = match &self.normalized_version {
            Some(v) => Some(v.clone()),
            None => None,
        };
        let description = match &self.description {
            Some(d) => Some(d.clone()),
            None => None,
        };
        let authors = match &self.authors {
            Some(a) => Some(a.clone()),
            None => None,
        };
        let icon = match &self.icon {
            Some(pixels) => {
                let copy = pixels.clone();
                assert(copy@ =~= pixels@);
                Some(copy)
            },
            None => None,
        };
        ModEntry {
            id: self.id.clone(),
            version: self.version.clone(),
            normalized_version,
            display_name: self.display_name.clone(),
            description,
            authors,
            modloader: self.modloader,
            icon,
        }
    }
}

impl Clone for ModFileData {
    fn clone(&self) -> (res: Self)
        ensures
            same_data(res, *self),
    {
        let loaders = self.loaders.clone();
        assert(loaders@ =~= self.loaders@);
        ModFileData { state: self.state, sourced_from: self.sourced_from, loaders, sources: self.sources.clone() }
    }
}

impl Clone for ModFile {
    fn clone(&self) -> (res: Self)
        ensures
            same_file(res, *self),
    {
        let entries = self.entries.clone();
        assert forall|i: int| 0 <= i < entries@.len() implies same_entry(#[trigger] entries@[i], self.entries@[i]) by {
            assert(cloned::<ModEntry>(self.entries@[i], entries@[i]));
        }
        ModFile { entries, data: self.data.clone(), hashes: self.hashes.clone(), path: self.path.clone() }
    }
}

/// The name of a Fabric author.
pub open spec fn author_name(author: Author) -> Seq<char> {
    match author {
        Author::Name(name) => name@,
        Author::AuthorObject(object) => object.name@,
    }
}

/// `parts` joined with `sep` between each two of them.
pub open spec fn join_with(parts: Seq<Seq<char>>, sep: Seq<char>) -> Seq<char>
    decreases parts.len(),
{
    if parts.len() == 0 {
        seq![]
    } else if parts.len() == 1 {
        parts[0]
    } else {
        join_with(parts.drop_last(), sep) + sep + parts.last()
    }
}

/// The total length of a list of texts.
pub open spec fn total_len(parts: Seq<Seq<char>>) -> int
    decreases parts.len(),
{
    if parts.len() == 0 {
        0
    } else {
        total_len(parts.drop_last()) + parts.last().len()
    }
}

/// Joining puts the separator between every two neighbours and nowhere
/// else: one more part appends the separator and the part, a single part is
/// itself, and the joined text is as long as the parts plus one separator
/// per gap.
pub proof fn lemma_join_with(parts: Seq<Seq<char>>, sep: Seq<char>, part: Seq<char>)
    ensures
        join_with(seq![part], sep) == part,
        parts.len() >= 1 ==> join_with(parts.push(part), sep) == join_with(parts, sep) + sep + part,
        parts.len() >= 1 ==> join_with(parts, sep).len() == total_len(parts) + sep.len() * (parts.len() - 1),
    decreases parts.len(),
{
    assert(parts.push(part).drop_last() =~= parts);
    if parts.len() >= 1 {
        lemma_join_with(parts.drop_last(), sep, parts.last());
        if parts.len() == 1 {
            assert(parts.drop_last() =~= Seq::<Seq<char>>::empty());
            assert(join_with(parts, sep) == parts[0]);
            assert(total_len(parts) == total_len(parts.drop_last()) + parts[0].len());
        } else {
            assert(sep.len() * (parts.len() - 1) == sep.len() * (parts.len() - 2) + sep.len()) by (nonlinear_arith);
        }
    }
}

/// The authors of a Fabric mod as one line.
pub open spec fn authors_line(authors: Seq<Author>) -> Seq<char> {
    join_with(authors.map_values(|a: Author| author_name(a)), ", "@)
}

/// The authors line of one author is that author's name, and one more
/// author appends ", " and the name.
pub proof fn lemma_authors_line(authors: Seq<Author>, author: Author)
    ensures
        authors_line(seq![author]) == author_name(author),
        authors.len() >= 1 ==> authors_line(authors.push(author)) == authors_line(authors) + ", "@ + author_name(author),
{
    let names = authors.map_values(|a: Author| author_name(a));
    assert(authors.push(author).map_values(|a: Author| author_name(a)) =~= names.push(author_name(author)));
    assert(seq![author].map_values(|a: Author| author_name(a)) =~= seq![author_name(author)]);
    lemma_join_with(names, ", "@, author_name(author));
}

/// Joins the names of the authors with ", ".
fn join_author_names(authors: &Vec<Author>) -> (res: String)
    ensures
        res@ == authors_line(authors@),
{
    let ghost names = authors@.map_values(|a: Author| author_name(a));
    let mut res = String::new();
    let mut i: usize = 0;
    while i < authors.len()
        invariant
            i <= authors.len(),
            names == authors@.map_values(|a: Author| author_name(a)),
            res@ == join_with(names.take(i as int), ", "@),
        decreases authors.len() - i,
    {
        let name: &str = match &authors[i] {
            Author::Name(name) => name.as_str(),
            Author::AuthorObject(object) => object.name.as_str(),
        };
        assert(name@ == names[i as int]);
        if i != 0 {
            res.append(", ");
        }
        res.append(name);
        assert(names.take(i + 1).drop_last() =~= names.take(i as int));
        proof {
            if i == 0 {
                assert(names.take(1) =~= seq![names[0]]);
            }
        }
        i = i + 1;
    }
    assert(names.take(authors.len() as int) =~= names);
    res
}

/// `entry` is what `ModEntry::from_fabric_manifest` makes of `manifest`.
pub open spec fn entry_from_fabric(manifest: FabricManifest, entry: ModEntry) -> bool {
    &&& entry_fields_from_fabric(manifest, entry)
    &&& entry.modloader == ModLoader::Fabric
    &&& entry.icon is None
}

/// `entry` holds what `manifest` says, whatever its loader and icon.
pub open spec fn entry_fields_from_fabric(manifest: FabricManifest, entry: ModEntry) -> bool {
    &&& entry.id == manifest.id
    &&& entry.version == manifest.version
    &&& entry.normalized_version is None
    &&& entry.display_name@ == match manifest.name {
        Some(name) => name@,
        None => manifest.id@,
    }
    &&& entry.description == manifest.description
    &&& match manifest.authors {
        Some(authors) => entry.authors matches Some(a) && a@ == authors_line(authors@),
        None => entry.authors is None,
    }
}

/// `entry` is what `ModEntry::from_forge_manifest` makes of `mod_entry`.
pub open spec fn entry_from_forge(mod_entry: ForgeModEntry, entry: ModEntry) -> bool {
    &&& entry_fields_from_forge(mod_entry, entry)
    &&& entry.icon is None
}

/// `entry` holds what `mod_entry` says, whatever its icon.
pub open spec fn entry_fields_from_forge(mod_entry: ForgeModEntry, entry: ModEntry) -> bool {
    &&& entry.id == mod_entry.mod_id
    &&& entry.version == mod_entry.version
    &&& entry.normalized_version is None
    &&& entry.display_name == mod_entry.display_name
    &&& entry.description == Some(mod_entry.description)
    &&& entry.authors == mod_entry.authors
    &&& entry.modloader == ModLoader::Forge
}

impl ModEntry {
    /// The entry of a mod described independently of its loader.
    pub fn new(mc_mod: MinecraftMod) -> (res: Self)
        ensures
            res == (ModEntry {
                id: mc_mod.id,
                version: mc_mod.version,
                normalized_version: None,
                display_name: mc_mod.display_name,
                description: None,
                authors: None,
                modloader: from_meta_loader(mc_mod.modloader),
                icon: None,
            }),
    {
        let MinecraftMod { id, version, display_name, modloader } = mc_mod;
        ModEntry {
            id,
            version,
            normalized_version: None,
            display_name,
            description: None,
            authors: None,
            modloader: ModLoader::from(modloader),
            icon: None,
        }
    }

    /// The entry of one mod of a Forge manifest.
    pub fn from_forge_manifest(forge_mod_entry: ForgeModEntry) -> (res: Self)
        ensures
            entry_from_forge(forge_mod_entry, res),
    {
        ModEntry {
            id: forge_mod_entry.mod_id,
            version: forge_mod_entry.version,
            normalized_version: None,
            display_name: forge_mod_entry.display_name,
            description: Some(forge_mod_entry.description),
            authors: forge_mod_entry.authors,
            modloader: ModLoader::Forge,
            icon: None,
        }
    }

    /// The entry of the mod a Fabric manifest describes: it is shown under
    /// its name (else its id) and its authors are joined with ", ".
    pub fn from_fabric_manifest(fabric_manifest: FabricManifest) -> (res: Self)
        ensures
            entry_from_fabric(fabric_manifest, res),
    {
        let parsed_authors = match &fabric_manifest.authors {
            Some(authors) => Some(join_author_names(authors)),
            None => None,
        };
        let mod_name = match &fabric_manifest.name {
            Some(name) => name.clone(),
            None => fabric_manifest.id.clone(),
        };
        ModEntry {
            id: fabric_manifest.id,
            version: fabric_manifest.version,
            normalized_version: None,
            display_name: mod_name,
            description: fabric_manifest.description,
            authors: parsed_authors,
            modloader: ModLoader::Fabric,
            icon: None,
        }
    }
}

} // verus!
