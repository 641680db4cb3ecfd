use std::collections::HashMap;
use std::io::Write;

use mcubed::error::Error;
use mcubed::mc_mod_meta::common::MinecraftMod;
use mcubed::mc_mod_meta::fabric::{Author, AuthorObject, FabricManifest};
use mcubed::mc_mod_meta::forge::{ForgeManifest, ForgeModEntry};
use mcubed::mc_mod_meta::ModLoader as MetaLoader;
use mcubed::mc_mod_meta::{FABRIC_META_PATH, FORGE_META_PATH};
use mcubed::mod_file::from_file::{icon_bytes, load_icon, read_manifest_text, ManifestText, ParsedManifest};
use mcubed::mod_file::version::select_normalized_version;
use mcubed::mod_file::{CurrentSource, FileState, Hashes, ModEntry, ModFile, ModLoader};

fn zip_with(entries: &[(&str, &[u8])]) -> Vec<u8> {
    let mut buf = std::io::Cursor::new(Vec::new());
    {
        let mut writer = zip::ZipWriter::new(&mut buf);
        for (name, data) in entries {
            writer.start_file(*name, zip::write::FileOptions::default()).unwrap();
            writer.write_all(data).unwrap();
        }
        writer.finish().unwrap();
    }
    buf.into_inner()
}

fn png_bytes() -> Vec<u8> {
    let img = image::DynamicImage::ImageRgba8(image::RgbaImage::from_pixel(2, 2, image::Rgba([255, 0, 0, 255])));
    let mut cursor = std::io::Cursor::new(Vec::new());
    img.write_to(&mut cursor, image::ImageOutputFormat::Png).unwrap();
    cursor.into_inner()
}

fn fabric_manifest(id: &str, name: Option<&str>, authors: Option<Vec<Author>>, icon: Option<&str>) -> FabricManifest {
    FabricManifest {
        schema_version: 1,
        id: id.to_string(),
        version: "1.2.3".to_string(),
        environment: None,
        entrypoints: None,
        jars: None,
        language_adapters: None,
        mixins: None,
        access_widener: None,
        depends: None,
        recommends: None,
        suggests: None,
        breaks: None,
        conflicts: None,
        name: name.map(|n| n.to_string()),
        description: Some("A mod".to_string()),
        contact: None,
        authors,
        contributors: None,
        license: None,
        icon: icon.map(|i| i.to_string()),
        custom: None,
    }
}

fn two_authors() -> Vec<Author> {
    vec![
        Author::Name("Alice".to_string()),
        Author::AuthorObject(AuthorObject { name: "Bob".to_string(), contact: "bob@example.org".to_string() }),
    ]
}

fn forge_entry(id: &str, logo: Option<&str>) -> ForgeModEntry {
    ForgeModEntry {
        mod_id: id.to_string(),
        version: "4.5".to_string(),
        display_name: format!("{} mod", id),
        update_json_url: None,
        display_url: None,
        logo_file: logo.map(|l| l.to_string()),
        credits: None,
        authors: Some("Carol".to_string()),
        description: "Forge mod".to_string(),
    }
}

fn forge_manifest(mods: Vec<ForgeModEntry>) -> ForgeManifest {
    ForgeManifest {
        mod_loader: "javafml".to_string(),
        loader_version: "[40,)".to_string(),
        license: "MIT".to_string(),
        issue_tracker_url: "https://example.org/issues".to_string(),
        show_as_resource_pack: None,
        mods,
        dependencies: HashMap::new(),
    }
}

fn entry(name: &str, loader: ModLoader, version: &str) -> ModEntry {
    ModEntry {
        id: name.to_lowercase(),
        version: version.to_string(),
        normalized_version: None,
        display_name: name.to_string(),
        description: None,
        authors: None,
        modloader: loader,
        icon: None,
    }
}

#[test]
fn fabric_entry_joins_authors() {
    let e = ModEntry::from_fabric_manifest(fabric_manifest("examplemod", Some("Example Mod"), Some(two_authors()), None));
    assert_eq!(e.id, "examplemod");
    assert_eq!(e.version, "1.2.3");
    assert_eq!(e.display_name, "Example Mod");
    assert_eq!(e.description.as_deref(), Some("A mod"));
    assert_eq!(e.authors.as_deref(), Some("Alice, Bob"));
    assert_eq!(e.modloader, ModLoader::Fabric);
    assert!(e.icon.is_none());
    assert!(e.normalized_version.is_none());
}

#[test]
fn fabric_entry_without_name_is_shown_by_id() {
    let e = ModEntry::from_fabric_manifest(fabric_manifest("examplemod", None, None, None));
    assert_eq!(e.display_name, "examplemod");
    assert!(e.authors.is_none());
}

#[test]
fn fabric_entry_with_one_or_no_author() {
    let one = ModEntry::from_fabric_manifest(fabric_manifest("m", None, Some(vec![Author::Name("Solo".to_string())]), None));
    assert_eq!(one.authors.as_deref(), Some("Solo"));
    let none = ModEntry::from_fabric_manifest(fabric_manifest("m", None, Some(vec![]), None));
    assert_eq!(none.authors.as_deref(), Some(""));
}

#[test]
fn forge_entry_keeps_its_fields() {
    let e = ModEntry::from_forge_manifest(forge_entry("jei", Some("logo.png")));
    assert_eq!(e.id, "jei");
    assert_eq!(e.version, "4.5");
    assert_eq!(e.display_name, "jei mod");
    assert_eq!(e.description.as_deref(), Some("Forge mod"));
    assert_eq!(e.authors.as_deref(), Some("Carol"));
    assert_eq!(e.modloader, ModLoader::Forge);
    assert!(e.icon.is_none());
}

#[test]
fn entry_from_minecraft_mod() {
    let m = MinecraftMod {
        id: "sodium".to_string(),
        version: "0.4".to_string(),
        display_name: "Sodium".to_string(),
        modloader: MetaLoader::Both,
    };
    let e = ModEntry::new(m);
    assert_eq!(e.id, "sodium");
    assert_eq!(e.display_name, "Sodium");
    assert_eq!(e.modloader, ModLoader::Both);
    assert!(e.description.is_none() && e.authors.is_none() && e.icon.is_none());
}

#[test]
fn loader_and_source_names() {
    assert_eq!(ModLoader::Forge.to_display_str(), "Forge");
    assert_eq!(ModLoader::Fabric.to_display_str(), "Fabric");
    assert_eq!(ModLoader::Both.to_display_str(), "Both");
    assert_eq!(ModLoader::Forge.as_str(), "forge");
    assert_eq!(ModLoader::Fabric.as_str(), "fabric");
    assert_eq!(ModLoader::default(), ModLoader::Both);
    assert_eq!(ModLoader::from(MetaLoader::Fabric), ModLoader::Fabric);
    assert_eq!(CurrentSource::NoSource.to_display_str(), "None");
    assert_eq!(CurrentSource::Local.to_display_str(), "Local");
    assert_eq!(CurrentSource::Modrinth.to_display_str(), "Modrinth");
    assert_eq!(CurrentSource::CurseForge.to_display_str(), "CurseForge");
}

#[test]
fn manifest_text_follows_the_loader() {
    let fabric = zip_with(&[(FABRIC_META_PATH, b"{\"id\":\"f\"}")]);
    assert!(matches!(read_manifest_text(&fabric), Ok(ManifestText::Fabric(t)) if t == "{\"id\":\"f\"}"));
    let forge = zip_with(&[(FORGE_META_PATH, b"license='MIT'")]);
    assert!(matches!(read_manifest_text(&forge), Ok(ManifestText::Forge(t)) if t == "license='MIT'"));
    let both = zip_with(&[(FORGE_META_PATH, b"license='MIT'"), (FABRIC_META_PATH, b"{}")]);
    assert!(matches!(read_manifest_text(&both), Ok(ManifestText::Both(t)) if t == "{}"));
}

#[test]
fn manifest_text_errors() {
    let plain = zip_with(&[("readme.txt", b"hi")]);
    assert!(matches!(read_manifest_text(&plain), Err(Error::MetadataInvalidModFile)));
    assert!(matches!(read_manifest_text(b"no archive"), Err(Error::MetadataZipError)));
}

#[test]
fn fabric_manifest_entry_gets_its_icon() {
    let png = png_bytes();
    let archive = zip_with(&[(FABRIC_META_PATH, b"{}"), ("assets/icon.png", &png)]);
    let manifest = fabric_manifest("iconmod", Some("Icon Mod"), None, Some("assets/icon.png"));
    let entries = ModEntry::from_manifest(&archive, ParsedManifest::Fabric(manifest), 4);
    assert_eq!(entries.len(), 1);
    assert_eq!(entries[0].display_name, "Icon Mod");
    assert_eq!(entries[0].modloader, ModLoader::Fabric);
    // A 2x2 icon scaled to fit 4x4 is 4x4 RGBA pixels.
    assert_eq!(entries[0].icon.as_ref().map(|i| i.len()), Some(64));
}

#[test]
fn missing_or_broken_icon_is_left_out() {
    let archive = zip_with(&[(FABRIC_META_PATH, b"{}"), ("broken.png", b"not an image")]);
    let missing = fabric_manifest("iconmod", None, None, Some("assets/icon.png"));
    let entries = ModEntry::from_manifest(&archive, ParsedManifest::Both(missing), 4);
    assert_eq!(entries.len(), 1);
    assert_eq!(entries[0].modloader, ModLoader::Both);
    assert!(entries[0].icon.is_none());
    let broken = fabric_manifest("iconmod", None, None, Some("broken.png"));
    let entries = ModEntry::from_manifest(&archive, ParsedManifest::Fabric(broken), 4);
    assert!(entries[0].icon.is_none());
}

#[test]
fn forge_manifest_gives_one_entry_per_mod() {
    let png = png_bytes();
    let archive = zip_with(&[(FORGE_META_PATH, b""), ("logo.png", &png)]);
    let manifest = forge_manifest(vec![forge_entry("first", Some("logo.png")), forge_entry("second", None)]);
    let entries = ModEntry::from_manifest(&archive, ParsedManifest::Forge(manifest), 2);
    assert_eq!(entries.len(), 2);
    assert_eq!(entries[0].id, "first");
    assert_eq!(entries[1].id, "second");
    assert!(entries.iter().all(|e| e.modloader == ModLoader::Forge));
    assert_eq!(entries[0].icon.as_ref().map(|i| i.len()), Some(16));
    assert!(entries[1].icon.is_none());
}

#[test]
fn icon_loading() {
    let png = png_bytes();
    let archive = zip_with(&[("ok.png", &png), ("broken.png", b"not an image")]);
    assert_eq!(icon_bytes(&archive, "ok.png").unwrap(), png);
    assert!(matches!(icon_bytes(&archive, "absent.png"), Err(Error::ZipError(_))));
    assert!(matches!(icon_bytes(b"no archive", "ok.png"), Err(Error::ZipError(_))));
    assert_eq!(load_icon(&archive, "ok.png", 2).unwrap().map(|p| p.len()), Some(16));
    assert!(matches!(load_icon(&archive, "broken.png", 2), Ok(None)));
    assert!(matches!(load_icon(&archive, "absent.png", 2), Err(Error::ZipError(_))));
}

#[test]
fn mod_file_from_parts_dedups_neighbouring_loaders() {
    let entries = vec![
        entry("A", ModLoader::Forge, "1"),
        entry("B", ModLoader::Forge, "1"),
        entry("C", ModLoader::Fabric, "1"),
        entry("D", ModLoader::Forge, "1"),
    ];
    let hashes = Hashes { sha1: "s1".to_string(), sha512: "s512".to_string() };
    let file = ModFile::from_parts("/mods/x.jar".to_string(), hashes.clone(), entries);
    assert_eq!(file.data.loaders, vec![ModLoader::Forge, ModLoader::Fabric, ModLoader::Forge]);
    assert_eq!(file.data.state, FileState::Current);
    assert_eq!(file.data.sourced_from, CurrentSource::NoSource);
    assert!(file.data.sources.modrinth.is_none() && file.data.sources.curseforge.is_none());
    assert_eq!(file.hashes, hashes);
    assert_eq!(file.path, "/mods/x.jar");
    assert_eq!(file.entries.len(), 4);
}

#[test]
fn normalized_version_skips_game_versions() {
    let mut e = entry("Lithium", ModLoader::Fabric, "mc1.19.2-0.5.1");
    let game_versions = vec!["1.19.2".to_string()];
    assert_eq!(e.get_normalized_version(Some(&game_versions)), "0.5.1");
    assert_eq!(e.normalized_version.as_deref(), Some("0.5.1"));
}

#[test]
fn normalized_version_without_game_versions_is_first_match() {
    let mut e = entry("Lithium", ModLoader::Fabric, "mc1.19.2-0.5.1");
    assert_eq!(e.get_normalized_version(None), "1.19.2");
}

#[test]
fn normalized_version_of_text_without_numbers_is_the_text() {
    let mut e = entry("Odd", ModLoader::Forge, "beta");
    assert_eq!(e.get_normalized_version(None), "beta");
}

#[test]
fn normalized_version_is_kept_after_first_call() {
    let mut e = entry("Lithium", ModLoader::Fabric, "mc1.19.2-0.5.1");
    let first = e.get_normalized_version(None);
    let game_versions = vec!["1.19.2".to_string()];
    let second = e.get_normalized_version(Some(&game_versions));
    assert_eq!(first, "1.19.2");
    assert_eq!(second, first);
}

#[test]
fn create_normalized_version_recomputes() {
    let mut e = entry("Lithium", ModLoader::Fabric, "1.2 for 1.19");
    e.create_normalized_version(None);
    assert_eq!(e.normalized_version.as_deref(), Some("1.2"));
    let game_versions = vec!["1.2".to_string()];
    e.create_normalized_version(Some(&game_versions));
    assert_eq!(e.normalized_version.as_deref(), Some("1.19"));
}

#[test]
fn selection_falls_back_to_first_match() {
    let matches = vec!["1.19".to_string(), "2.0".to_string()];
    let all_games = vec!["2.0".to_string(), "1.19".to_string()];
    let v = "x".to_string();
    assert_eq!(select_normalized_version(&v, &matches, Some(&all_games)), "1.19");
    assert_eq!(select_normalized_version(&v, &vec![], Some(&all_games)), "x");
}

/// An archive whose manifest entry carries an AES extra field while its
/// encryption flag is clear.
fn archive_with_unflagged_aes_entry() -> Vec<u8> {
    let mut buf = std::io::Cursor::new(Vec::new());
    {
        let mut writer = zip::ZipWriter::new(&mut buf);
        writer.start_file_with_extra_data(FABRIC_META_PATH, zip::write::FileOptions::default()).unwrap();
        // Written under a free header id, then patched to the AES id (0x9901).
        writer.write_all(&[0x03, 0x99, 0x07, 0x00, 0x01, 0x00, 0x41, 0x45, 0x01, 0x00, 0x00]).unwrap();
        writer.end_extra_data().unwrap();
        writer.write_all(b"{}").unwrap();
        writer.finish().unwrap();
    }
    let mut bytes = buf.into_inner();
    let pattern = [0x03, 0x99, 0x07, 0x00, 0x01, 0x00, 0x41, 0x45];
    let mut i = 0;
    while i + pattern.len() <= bytes.len() {
        if bytes[i..i + pattern.len()] == pattern {
            bytes[i] = 0x01;
        }
        i += 1;
    }
    bytes
}

#[test]
fn unflagged_aes_entry_is_an_error_not_a_panic() {
    let archive = archive_with_unflagged_aes_entry();
    // The archive opens, and the entry is refused only at the password stage.
    let mut zip = zip::ZipArchive::new(std::io::Cursor::new(archive.as_slice())).unwrap();
    assert!(matches!(zip.by_name_decrypt(FABRIC_META_PATH, b""), Ok(Err(_))));
    assert!(matches!(mcubed::mc_mod_meta::get_modloader(&archive), Ok(MetaLoader::Fabric)));
    assert!(read_manifest_text(&archive).is_err());
    assert!(matches!(icon_bytes(&archive, FABRIC_META_PATH), Err(Error::ZipError(_))));
}

/// An archive whose single entry is flagged as encrypted.
fn archive_with_flagged_entry(name: &str, data: &[u8]) -> Vec<u8> {
    let mut bytes = zip_with(&[(name, data)]);
    let mut i = 0;
    while i + 10 <= bytes.len() {
        if bytes[i..i + 4] == [0x50, 0x4b, 0x03, 0x04] {
            bytes[i + 6] |= 1;
        } else if bytes[i..i + 4] == [0x50, 0x4b, 0x01, 0x02] {
            bytes[i + 8] |= 1;
        }
        i += 1;
    }
    bytes
}

#[test]
fn encrypted_entry_is_refused() {
    let archive = archive_with_flagged_entry("secret.bin", b"0123456789abcdefghij");
    match icon_bytes(&archive, "secret.bin") {
        Err(Error::ZipError(zip::result::ZipError::UnsupportedArchive(msg))) => {
            assert_eq!(msg, zip::result::ZipError::PASSWORD_REQUIRED)
        }
        other => panic!("expected a password error, got {:?}", other.map(|b| b.len())),
    }
}
