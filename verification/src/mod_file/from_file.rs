//! Building the mod list entries of a mod archive.

use vstd::prelude::*;

use crate::error::{Error, LibResult};
use crate::mc_mod_meta::archive::{
    read_entry_bytes, spec_zip_entry_bytes, spec_zip_entry_names, spec_zip_entry_text,
};
use crate::mc_mod_meta::error::Error as MetaError;
use crate::mc_mod_meta::fabric::FabricManifest;
use crate::mc_mod_meta::forge::ForgeManifest;
use crate::mc_mod_meta::{
    get_modloader, modloader_of_names, ModLoader as MetaLoader, FABRIC_META_PATH, FORGE_META_PATH,
};

use super::{
    entry_fields_from_fabric, entry_fields_from_forge, from_meta_loader, CurrentSource, FileState,
    Hashes, ModEntry, ModFile, ModFileData, ModLoader, Sources,
};

verus! {

/// The text of the manifest a mod archive is read from, tagged with the
/// loader the archive is for.
#[derive(Debug)]
pub enum ManifestText {
    Forge(String),
    Fabric(String),
    /// An archive for both loaders: its Fabric manifest.
    Both(String),
}

/// A parsed manifest, tagged like `ManifestText`.
pub enum ParsedManifest {
    Forge(ForgeManifest),
    Fabric(FabricManifest),
    Both(FabricManifest),
}

/// The entry text `read_manifest_text` answers with, wrapped by `tag`.
pub open spec fn entry_text_result(
    archive: Seq<u8>,
    path: Seq<char>,
    loader: MetaLoader,
    res: LibResult<ManifestText>,
) -> bool {
    match spec_zip_entry_text(archive, path) {
        Some(text) => match res {
            Ok(ManifestText::Forge(s)) => loader == MetaLoader::Forge && s@ == text,
            Ok(ManifestText::Fabric(s)) => loader == MetaLoader::Fabric && s@ == text,
            Ok(ManifestText::Both(s)) => loader == MetaLoader::Both && s@ == text,
            Err(_) => false,
        },
        None => res matches Err(e) && (e is MetadataZipError || e is IoError),
    }
}

/// What `read_manifest_text` answers for an archive.
pub open spec fn manifest_text_result(archive: Seq<u8>, res: LibResult<ManifestText>) -> bool {
    match spec_zip_entry_names(archive) {
        None => res matches Err(Error::MetadataZipError),
        Some(names) => match modloader_of_names(names) {
            None => res matches Err(Error::MetadataInvalidModFile),
            Some(MetaLoader::Forge) => entry_text_result(archive, FORGE_META_PATH@, MetaLoader::Forge, res),
            Some(l) => entry_text_result(archive, FABRIC_META_PATH@, l, res),
        },
    }
}

/// Reads the manifest a mod archive is described by: the Forge manifest of a
/// Forge archive, the Fabric manifest of a Fabric archive or of an archive
/// for both loaders.
pub fn read_manifest_text(archive: &[u8]) -> (res: LibResult<ManifestText>)
    ensures
        manifest_text_result(archive@, res),
{
    let modloader = match get_modloader(archive) {
        Ok(l) => l,
        Err(e) => return Err(Error::from(e)),
    };
    match modloader {
        MetaLoader::Forge => match ForgeManifest::manifest_text(archive) {
            Ok(text) => Ok(ManifestText::Forge(text)),
            Err(e) => Err(Error::from(e)),
        },
        MetaLoader::Fabric => match FabricManifest::manifest_text(archive) {
            Ok(text) => Ok(ManifestText::Fabric(text)),
            Err(e) => Err(Error::from(e)),
        },
        MetaLoader::Both => match FabricManifest::manifest_text(archive) {
            Ok(text) => Ok(ManifestText::Both(text)),
            Err(e) => Err(Error::from(e)),
        },
    }
}

/// Reads the bytes of the icon stored at `icon_path` in the archive (an
/// encoded image; decoding it is left to the caller).
pub fn icon_bytes(archive: &[u8], icon_path: &str) -> (res: LibResult<Vec<u8>>)
    ensures
        match spec_zip_entry_bytes(archive@, icon_path@) {
            Some(bytes) => res matches Ok(v) && v@ == bytes,
            None => res matches Err(e) && (e is ZipError || e is IoError),
        },
{
    match read_entry_bytes(archive, icon_path) {
        Ok(bytes) => Ok(bytes),
        Err(MetaError::IoError(e)) => Err(Error::IoError(e)),
        Err(MetaError::ZipError(e)) => Err(Error::ZipError(e)),
        Err(_) => Err(Error::MetadataZipError),
    }
}

/// A filter for resizing images.
#[derive(Clone, Copy, Debug, PartialEq, Eq, Structural)]
pub enum ResizeFilter {
    Nearest,
    Triangle,
    CatmullRom,
    Gaussian,
    Lanczos3,
}

/// The largest size icons can be resized to: the resized RGBA buffer must
/// fit in memory.
pub const MAX_ICON_SIZE: u32 = 4096;

/// The RGBA pixels of the encoded image `image` after resizing it with
/// `filter` to fit a `size` x `size` square, or `None` when it cannot be
/// decoded.
pub uninterp spec fn spec_icon_rgba(image: Seq<u8>, size: u32, filter: ResizeFilter) -> Option<Seq<u8>>;

/// `image::load_from_memory`, then `resize(size, size, filter)` and
/// `to_rgba8()`. Claimed: the pixels are a function of the image bytes, the
/// size and the filter, and an image that cannot be decoded gives `None`.
/// `size` is bounded because `resize` allocates a buffer for the result,
/// which panics when its length overflows. Not stated: that the PNG and JPEG
/// decoders never panic on a malformed image; that was not established from
/// their sources.
#[verifier::external_body]
fn decode_icon_rgba(image: &[u8], size: u32, filter: ResizeFilter) -> (res: Option<Vec<u8>>)
    requires
        size <= MAX_ICON_SIZE,
    ensures
        match res {
            Some(pixels) => spec_icon_rgba(image@, size, filter) == Some(pixels@),
            None => spec_icon_rgba(image@, size, filter) is None,
        },
{
    let filter = match filter {
        ResizeFilter::Nearest => image::imageops::FilterType::Nearest,
        ResizeFilter::Triangle => image::imageops::FilterType::Triangle,
        ResizeFilter::CatmullRom => image::imageops::FilterType::CatmullRom,
        ResizeFilter::Gaussian => image::imageops::FilterType::Gaussian,
        ResizeFilter::Lanczos3 => image::imageops::FilterType::Lanczos3,
    };
    let decoded = image::load_from_memory(image).ok()?;
    Some(decoded.resize(size, size, filter).to_rgba8().to_vec())
}

/// The icon the archive holds at `icon_path`, decoded and resized with the
/// triangle filter to `size`: `None` when the entry cannot be read or the
/// image cannot be decoded.
pub open spec fn icon_pixels(archive: Seq<u8>, icon_path: Seq<char>, size: u32) -> Option<Seq<u8>> {
    match spec_zip_entry_bytes(archive, icon_path) {
        Some(bytes) => spec_icon_rgba(bytes, size, ResizeFilter::Triangle),
        None => None,
    }
}

/// Reads the icon at `icon_path` in the archive and resizes it (triangle
/// filter) to fit an `icon_size` x `icon_size` square. An entry that cannot
/// be found or read is an error; an image that cannot be decoded is `None`.
pub fn load_icon(archive: &[u8], icon_path: &str, icon_size: u32) -> (res: LibResult<Option<Vec<u8>>>)
    requires
        icon_size <= MAX_ICON_SIZE,
    ensures
        match spec_zip_entry_bytes(archive@, icon_path@) {
            Some(bytes) => res matches Ok(icon) && match icon {
                Some(p) => spec_icon_rgba(bytes, icon_size, ResizeFilter::Triangle) == Some(p@),
                None => spec_icon_rgba(bytes, icon_size, ResizeFilter::Triangle) is None,
            },
            None => res matches Err(e) && (e is ZipError || e is IoError),
        },
{
    let bytes = icon_bytes(archive, icon_path)?;
    Ok(decode_icon_rgba(bytes.as_slice(), icon_size, ResizeFilter::Triangle))
}

/// The icon an entry gets for an optional icon path.
pub open spec fn entry_icon(archive: Seq<u8>, icon_path: Option<String>, size: u32) -> Option<Seq<u8>> {
    match icon_path {
        Some(path) => icon_pixels(archive, path@, size),
        None => None,
    }
}

/// Whether an optional pixel buffer holds the pixels `pixels`.
pub open spec fn icon_is(icon: Option<Vec<u8>>, pixels: Option<Seq<u8>>) -> bool {
    match (icon, pixels) {
        (Some(v), Some(p)) => v@ == p,
        (None, None) => true,
        _ => false,
    }
}

/// Adds an entry to the list, with its icon when it has one that loads.
fn add_to_mod_vec(
    mod_vec: &mut Vec<ModEntry>,
    archive: &[u8],
    mod_entry: ModEntry,
    icon_path: Option<String>,
    icon_size: u32,
)
    requires
        icon_size <= MAX_ICON_SIZE,
    ensures
        final(mod_vec)@.len() == old(mod_vec)@.len() + 1,
        final(mod_vec)@.take(old(mod_vec)@.len() as int) == old(mod_vec)@,
        ({
            let added = final(mod_vec)@.last();
            &&& added == (ModEntry { icon: added.icon, ..mod_entry })
            &&& icon_is(added.icon, entry_icon(archive@, icon_path, icon_size))
        }),
{
    let mut mod_entry = mod_entry;
    mod_entry.icon = None;
    if let Some(icon_path) = icon_path {
        if let Ok(icon) = load_icon(archive, icon_path.as_str(), icon_size) {
            mod_entry.icon = icon;
        }
    }
    mod_vec.push(mod_entry);
    assert(final(mod_vec)@.take(old(mod_vec)@.len() as int) =~= old(mod_vec)@);
}

/// `entries` is what `ModEntry::from_manifest` makes of `manifest`.
pub open spec fn entries_from_manifest(
    archive: Seq<u8>,
    manifest: ParsedManifest,
    icon_size: u32,
    entries: Seq<ModEntry>,
) -> bool {
    match manifest {
        ParsedManifest::Forge(m) => {
            &&& entries.len() == m.mods@.len()
            &&& forall|i: int|
                0 <= i < entries.len() ==> {
                    &&& entry_fields_from_forge(m.mods@[i], #[trigger] entries[i])
                    &&& icon_is(entries[i].icon, entry_icon(archive, m.mods@[i].logo_file, icon_size))
                }
        },
        ParsedManifest::Fabric(m) => {
            &&& entries.len() == 1
            &&& entry_fields_from_fabric(m, entries[0])
            &&& entries[0].modloader == ModLoader::Fabric
            &&& icon_is(entries[0].icon, entry_icon(archive, m.icon, icon_size))
        },
        ParsedManifest::Both(m) => {
            &&& entries.len() == 1
            &&& entry_fields_from_fabric(m, entries[0])
            &&& entries[0].modloader == ModLoader::Both
            &&& icon_is(entries[0].icon, entry_icon(archive, m.icon, icon_size))
        },
    }
}

impl ModEntry {
    /// The entries of a mod archive described by `manifest`: one per mod of a
    /// Forge manifest, one for a Fabric manifest (with the loader `Both` when
    /// the archive is for both loaders). Icons are read from the archive and
    /// resized to `icon_size`; an icon that does not load is left out.
    pub fn from_manifest(archive: &[u8], manifest: ParsedManifest, icon_size: u32) -> (res: Vec<Self>)
        requires
            icon_size <= MAX_ICON_SIZE,
        ensures
            entries_from_manifest(archive@, manifest, icon_size, res@),
    {
        let mut mod_vec: Vec<ModEntry> = Vec::new();
        match manifest {
            ParsedManifest::Forge(forge_meta) => {
                let ghost all_mods = forge_meta.mods@;
                let count = forge_meta.mods.len();
                assert(all_mods.len() == count);
                let mut rest = forge_meta.mods;
                let mut i: usize = 0;
                while rest.len() > 0
                    invariant
                        i + rest@.len() == all_mods.len(),
                        all_mods.len() <= usize::MAX,
                        icon_size <= MAX_ICON_SIZE,
                        rest@ == all_mods.skip(i as int),
                        mod_vec@.len() == i,
                        forall|j: int|
                            0 <= j < i ==> {
                                &&& entry_fields_from_forge(all_mods[j], #[trigger] mod_vec@[j])
                                &&& icon_is(mod_vec@[j].icon, entry_icon(archive@, all_mods[j].logo_file, icon_size))
                            },
                    decreases rest@.len(),
                {
                    let forge_mod_entry = rest.remove(0);
                    assert(forge_mod_entry == all_mods[i as int]);
                    let icon_path = match &forge_mod_entry.logo_file {
                        Some(p) => Some(p.clone()),
                        None => None,
                    };
                    let mod_entry = Self::from_forge_manifest(forge_mod_entry);
                    let ghost prev = mod_vec@;
                    add_to_mod_vec(&mut mod_vec, archive, mod_entry, icon_path, icon_size);
                    assert(rest@ =~= all_mods.skip(i + 1));
                    assert forall|j: int| 0 <= j < i + 1 implies {
                        &&& entry_fields_from_forge(all_mods[j], #[trigger] mod_vec@[j])
                        &&& icon_is(mod_vec@[j].icon, entry_icon(archive@, all_mods[j].logo_file, icon_size))
                    } by {
                        if j < i {
                            assert(mod_vec@[j] == mod_vec@.take(i as int)[j]);
                            assert(mod_vec@[j] == prev[j]);
                        }
                    }
                    i = i + 1;
                }
            },
            ParsedManifest::Fabric(fabric_manifest) => {
                let icon_path = match &fabric_manifest.icon {
                    Some(p) => Some(p.clone()),
                    None => None,
                };
                let mod_entry = Self::from_fabric_manifest(fabric_manifest);
                add_to_mod_vec(&mut mod_vec, archive, mod_entry, icon_path, icon_size);
            },
            ParsedManifest::Both(fabric_manifest) => {
                let icon_path = match &fabric_manifest.icon {
                    Some(p) => Some(p.clone()),
                    None => None,
                };
                let mut mod_entry = Self::from_fabric_manifest(fabric_manifest);
                mod_entry.modloader = ModLoader::Both;
                add_to_mod_vec(&mut mod_vec, archive, mod_entry, icon_path, icon_size);
            },
        }
        mod_vec
    }
}

/// `loaders` with each run of equal neighbours kept once (as `Vec::dedup` does).
pub open spec fn dedup_adjacent(loaders: Seq<ModLoader>) -> Seq<ModLoader>
    decreases loaders.len(),
{
    if loaders.len() == 0 {
        loaders
    } else {
        let d = dedup_adjacent(loaders.drop_last());
        if d.len() > 0 && d.last() == loaders.last() {
            d
        } else {
            d.push(loaders.last())
        }
    }
}

/// The loaders of a list of entries, in order.
pub open spec fn loaders_of(entries: Seq<ModEntry>) -> Seq<ModLoader> {
    entries.map_values(|e: ModEntry| e.modloader)
}

/// The loaders of the entries with neighbouring repeats removed.
fn entry_loaders(entries: &Vec<ModEntry>) -> (res: Vec<ModLoader>)
    ensures
        res@ == dedup_adjacent(loaders_of(entries@)),
{
    let ghost all = loaders_of(entries@);
    let mut res: Vec<ModLoader> = Vec::new();
    let mut i: usize = 0;
    while i < entries.len()
        invariant
            i <= entries.len(),
            all == loaders_of(entries@),
            res@ == dedup_adjacent(all.take(i as int)),
        decreases entries.len() - i,
    {
        let loader = entries[i].modloader;
        assert(all.take(i + 1).drop_last() =~= all.take(i as int));
        assert(all.take(i + 1).last() == loader);
        if res.len() == 0 || res[res.len() - 1] != loader {
            res.push(loader);
        }
        i = i + 1;
    }
    assert(all.take(entries.len() as int) =~= all);
    res
}

/// Deduplicating keeps every loader and leaves no two equal neighbours.
pub proof fn lemma_dedup_adjacent(loaders: Seq<ModLoader>)
    ensures
        forall|i: int| 0 <= i < dedup_adjacent(loaders).len() - 1 ==>
            #[trigger] dedup_adjacent(loaders)[i] != dedup_adjacent(loaders)[i + 1],
        forall|l: ModLoader| loaders.contains(l) <==> #[trigger] dedup_adjacent(loaders).contains(l),
        dedup_adjacent(loaders).len() <= loaders.len(),
    decreases loaders.len(),
{
    if loaders.len() > 0 {
        let prefix = loaders.drop_last();
        lemma_dedup_adjacent(prefix);
        let d = dedup_adjacent(prefix);
        assert forall|l: ModLoader| loaders.contains(l) <==> #[trigger] dedup_adjacent(loaders).contains(l) by {
            if loaders.contains(l) {
                let k = choose|k: int| 0 <= k < loaders.len() && loaders[k] == l;
                if k < loaders.len() - 1 {
                    assert(prefix[k] == l);
                    assert(d.contains(l));
                    let m = choose|m: int| 0 <= m < d.len() && d[m] == l;
                    assert(dedup_adjacent(loaders)[m] == l);
                } else if d.len() > 0 && d.last() == loaders.last() {
                    assert(dedup_adjacent(loaders)[d.len() - 1] == l);
                } else {
                    assert(dedup_adjacent(loaders)[d.len() as int] == l);
                }
            }
            if dedup_adjacent(loaders).contains(l) {
                let m = choose|m: int| 0 <= m < dedup_adjacent(loaders).len() && dedup_adjacent(loaders)[m] == l;
                if m < d.len() {
                    assert(d[m] == l);
                    assert(d.contains(l));
                    let k = choose|k: int| 0 <= k < prefix.len() && prefix[k] == l;
                    assert(loaders[k] == l);
                } else {
                    assert(loaders[loaders.len() - 1] == l);
                }
            }
        }
    }
}

impl ModFile {
    /// The mod file at `path` with the given hashes and entries: its loaders
    /// are those of its entries without neighbouring repeats, it is not yet
    /// sourced from anywhere, and it counts as current.
    pub fn from_parts(path: String, hashes: Hashes, entries: Vec<ModEntry>) -> (res: Self)
        ensures
            res.entries == entries,
            res.hashes == hashes,
            res.path == path,
            res.data.state == FileState::Current,
            res.data.sourced_from == CurrentSource::NoSource,
            res.data.sources == (Sources { curseforge: None, modrinth: None }),
            res.data.loaders@ == dedup_adjacent(loaders_of(entries@)),
    {
        let loaders = entry_loaders(&entries);
        ModFile {
            entries,
            data: ModFileData {
                state: FileState::Current,
                sourced_from: CurrentSource::NoSource,
                loaders,
                sources: Sources::default(),
            },
            hashes,
            path,
        }
    }
}

} // verus!
