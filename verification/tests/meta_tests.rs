use std::io::Write;

use mcubed::mc_mod_meta::common::MinecraftMod;
use mcubed::mc_mod_meta::error::Error as MetaError;
use mcubed::mc_mod_meta::fabric::{Author, AuthorObject, FabricManifest};
use mcubed::mc_mod_meta::forge::{ForgeManifest, ForgeModEntry};
use mcubed::mc_mod_meta::{get_modloader, modloader_from_names, ModLoader, FABRIC_META_PATH, FORGE_META_PATH};

fn zip_with(entries: &[(&str, &[u8])]) -> Vec<u8> {
    let mut buf = std::io::Cursor::new(Vec::new());
    {
        let mut writer = zip::ZipWriter::new(&mut buf);
        for (name, data) in entries {
            writer.start_file(*name, zip::write::FileOptions::default()).unwrap();
            writer.write_all(data).unwrap();
        }
        writer.finish().unwrap();
    }
    buf.into_inner()
}

pub fn fabric_manifest(id: &str, name: Option<&str>) -> FabricManifest {
    FabricManifest {
        schema_version: 1,
        id: id.to_string(),
        version: "1.2.3".to_string(),
        environment: None,
        entrypoints: None,
        jars: None,
        language_adapters: None,
        mixins: None,
        access_widener: None,
        depends: None,
        recommends: None,
        suggests: None,
        breaks: None,
        conflicts: None,
        name: name.map(|n| n.to_string()),
        description: Some("A mod".to_string()),
        contact: None,
        authors: Some(vec![
            Author::Name("Alice".to_string()),
            Author::AuthorObject(AuthorObject { name: "Bob".to_string(), contact: "bob@example.org".to_string() }),
        ]),
        contributors: None,
        license: None,
        icon: None,
        custom: None,
    }
}

fn forge_entry(id: &str) -> ForgeModEntry {
    ForgeModEntry {
        mod_id: id.to_string(),
        version: "4.5".to_string(),
        display_name: format!("{} mod", id),
        update_json_url: None,
        display_url: None,
        logo_file: None,
        credits: None,
        authors: Some("Carol".to_string()),
        description: "Forge mod".to_string(),
    }
}

#[test]
fn fabric_archive_is_fabric() {
    let archive = zip_with(&[(FABRIC_META_PATH, b"{}"), ("a.class", b"x")]);
    assert!(matches!(get_modloader(&archive), Ok(ModLoader::Fabric)));
}

#[test]
fn forge_archive_is_forge() {
    let archive = zip_with(&[(FORGE_META_PATH, b"modLoader = 'javafml'")]);
    assert!(matches!(get_modloader(&archive), Ok(ModLoader::Forge)));
}

#[test]
fn archive_with_both_manifests_is_both() {
    let archive = zip_with(&[(FORGE_META_PATH, b""), (FABRIC_META_PATH, b"{}")]);
    assert!(matches!(get_modloader(&archive), Ok(ModLoader::Both)));
}

#[test]
fn archive_without_manifest_is_invalid() {
    let archive = zip_with(&[("readme.txt", b"hello")]);
    assert!(matches!(get_modloader(&archive), Err(MetaError::InvalidModFile)));
}

#[test]
fn bytes_that_are_no_archive_give_a_zip_error() {
    assert!(matches!(get_modloader(b"not a zip file at all"), Err(MetaError::ZipError(_))));
}

#[test]
fn names_decide_the_loader() {
    let both = vec![FABRIC_META_PATH.to_string(), "x".to_string(), FORGE_META_PATH.to_string()];
    assert!(matches!(modloader_from_names(&both), Ok(ModLoader::Both)));
    let none: Vec<String> = vec!["fabric.mod.json.bak".to_string()];
    assert!(matches!(modloader_from_names(&none), Err(MetaError::InvalidModFile)));
}

#[test]
fn fabric_manifest_text_is_read() {
    let archive = zip_with(&[(FABRIC_META_PATH, b"{\"id\": \"x\"}")]);
    assert_eq!(FabricManifest::manifest_text(&archive).unwrap(), "{\"id\": \"x\"}");
}

#[test]
fn fabric_manifest_of_forge_archive_is_refused() {
    let archive = zip_with(&[(FORGE_META_PATH, b"")]);
    assert!(matches!(FabricManifest::manifest_text(&archive), Err(MetaError::IncorrectModloader)));
}

#[test]
fn forge_manifest_text_is_read_from_both() {
    let archive = zip_with(&[(FORGE_META_PATH, b"license = 'MIT'"), (FABRIC_META_PATH, b"{}")]);
    assert_eq!(ForgeManifest::manifest_text(&archive).unwrap(), "license = 'MIT'");
}

#[test]
fn forge_manifest_of_fabric_archive_is_refused() {
    let archive = zip_with(&[(FABRIC_META_PATH, b"{}")]);
    assert!(matches!(ForgeManifest::manifest_text(&archive), Err(MetaError::IncorrectModloader)));
}

#[test]
fn manifest_that_is_not_utf8_is_an_io_error() {
    let archive = zip_with(&[(FABRIC_META_PATH, &[0xff, 0xfe, 0x00])]);
    assert!(matches!(FabricManifest::manifest_text(&archive), Err(MetaError::IoError(_))));
}

#[test]
fn minecraft_mod_from_fabric_uses_name_else_id() {
    let named = MinecraftMod::from(fabric_manifest("examplemod", Some("Example Mod")));
    assert_eq!(named.id, "examplemod");
    assert_eq!(named.version, "1.2.3");
    assert_eq!(named.display_name, "Example Mod");
    assert_eq!(named.modloader, ModLoader::Fabric);
    let unnamed = MinecraftMod::from(fabric_manifest("examplemod", None));
    assert_eq!(unnamed.display_name, "examplemod");
}

#[test]
fn minecraft_mod_from_forge_entry() {
    let m = MinecraftMod::from(forge_entry("jei"));
    assert_eq!(m.id, "jei");
    assert_eq!(m.version, "4.5");
    assert_eq!(m.display_name, "jei mod");
    assert_eq!(m.modloader, ModLoader::Forge);
}
