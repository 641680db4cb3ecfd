use mcubed::error::Error;
use mcubed::messages::{BackendError, GameVersion, ToBackend, ToFrontend, VersionManifest};
use mcubed::mod_file::{CurrentSource, FileState, Hashes, ModEntry, ModFile, ModFileData, ModLoader, Sources};
use mcubed::modrinth::structures::VersionType;
use mcubed::ui::{
    card_request, info_lines, shown_entries, texture_key, version_type_text, CardButton, ListView, MCubedAppUI,
    ICON_RESIZE_QUALITY,
};

fn entry(name: &str) -> ModEntry {
    ModEntry {
        id: name.to_lowercase(),
        version: "2.1".to_string(),
        normalized_version: None,
        display_name: name.to_string(),
        description: None,
        authors: None,
        modloader: ModLoader::Fabric,
        icon: None,
    }
}

fn file(names: &[&str], state: FileState) -> ModFile {
    ModFile {
        entries: names.iter().map(|n| entry(n)).collect(),
        data: ModFileData { state, sourced_from: CurrentSource::Local, loaders: vec![], sources: Sources::default() },
        hashes: Hashes { sha1: "abc".to_string(), sha512: "def".to_string() },
        path: "/mods/f.jar".to_string(),
    }
}

fn versions(ids: &[&str]) -> Vec<GameVersion> {
    ids.iter().map(|id| GameVersion { id: id.to_string() }).collect()
}

#[test]
fn new_window_is_empty() {
    let app = MCubedAppUI::new();
    assert!(app.mod_list.is_empty());
    assert!(app.selected_version.is_none());
    assert_eq!(app.selected_modloader, ModLoader::Both);
    assert!(!app.backend_context.checking_for_updates);
    assert_eq!(app.list_view(), ListView::NoMods);
    assert_eq!(ICON_RESIZE_QUALITY, 128);
}

#[test]
fn version_list_selects_newest() {
    let mut app = MCubedAppUI::new();
    app.handle_message(ToFrontend::SetVersionMetadata { manifest: VersionManifest { versions: versions(&["1.19.2", "1.19.1"]) } });
    assert_eq!(app.selected_version.as_ref().map(|v| v.id.as_str()), Some("1.19.2"));
    assert_eq!(app.game_version_list.len(), 2);
}

#[test]
fn mod_list_ends_update_check() {
    let mut app = MCubedAppUI::new();
    app.selected_version = Some(GameVersion { id: "1.19".to_string() });
    assert!(matches!(app.refresh_request(), Some(ToBackend::CheckForUpdates { game_version }) if game_version == "1.19"));
    assert!(app.backend_context.checking_for_updates);
    app.handle_message(ToFrontend::UpdateModList { mod_list: vec![file(&["A"], FileState::Current)] });
    assert!(!app.backend_context.checking_for_updates);
    assert_eq!(app.mod_list.len(), 1);
}

#[test]
fn refresh_needs_a_version() {
    let mut app = MCubedAppUI::new();
    assert!(app.refresh_request().is_none());
    assert!(!app.backend_context.checking_for_updates);
}

#[test]
fn errors_are_shown_until_closed() {
    let mut app = MCubedAppUI::new();
    app.handle_message(ToFrontend::BackendError { error: BackendError::new("first".to_string(), Error::MetadataZipError) });
    app.handle_message(ToFrontend::BackendError { error: BackendError::new("second".to_string(), Error::NotValidModrinthId) });
    assert_eq!(app.backend_context.backend_errors.len(), 2);
    app.close_error(0);
    assert_eq!(app.backend_context.backend_errors.len(), 1);
    assert_eq!(app.backend_context.backend_errors[0].message, "second");
}

#[test]
fn version_picker_text() {
    let mut app = MCubedAppUI::new();
    assert_eq!(app.selected_version_text(), "Loading...");
    assert!(app.selected_version.is_none());
    app.game_version_list = versions(&["1.20", "1.19"]);
    assert_eq!(app.selected_version_text(), "1.20");
    assert_eq!(app.selected_version.as_ref().map(|v| v.id.as_str()), Some("1.20"));
    app.selected_version = Some(GameVersion { id: "1.19".to_string() });
    assert_eq!(app.selected_version_text(), "1.19");
}

#[test]
fn fetch_mod_needs_version_and_text() {
    let mut app = MCubedAppUI::new();
    app.add_mod_buf = "sodium".to_string();
    assert!(app.fetch_mod_request().is_none());
    app.selected_version = Some(GameVersion { id: "1.19".to_string() });
    app.selected_modloader = ModLoader::Fabric;
    match app.fetch_mod_request() {
        Some(ToBackend::AddMod { modrinth_id, game_version, modloader }) => {
            assert_eq!(modrinth_id, "sodium");
            assert_eq!(game_version, "1.19");
            assert_eq!(modloader, ModLoader::Fabric);
        }
        _ => panic!("expected an AddMod request"),
    }
    app.add_mod_buf.clear();
    assert!(app.fetch_mod_request().is_none());
}

#[test]
fn scan_and_exit_hand_over_the_list_first() {
    let mut app = MCubedAppUI::new();
    app.mod_list = vec![file(&["A"], FileState::Current), file(&["B"], FileState::Outdated)];
    let scan = app.scan_folder_requests();
    assert_eq!(scan.len(), 2);
    assert!(matches!(&scan[0], ToBackend::UpdateBackendList { mod_list } if mod_list.len() == 2));
    assert!(matches!(scan[1], ToBackend::ScanFolder));
    let exit = app.exit_requests();
    assert!(matches!(&exit[0], ToBackend::UpdateBackendList { mod_list } if mod_list.len() == 2));
    assert!(matches!(exit[1], ToBackend::Shutdown));
}

#[test]
fn central_panel_views() {
    let mut app = MCubedAppUI::new();
    app.mod_list = vec![file(&["Sodium"], FileState::Current)];
    assert_eq!(app.list_view(), ListView::Cards);
    app.search_buf = "SOD".to_string();
    assert_eq!(app.list_view(), ListView::Cards);
    app.search_buf = "iris".to_string();
    assert_eq!(app.list_view(), ListView::NoMatch);
    assert!(!app.update_all_offered());
    app.mod_list.push(file(&["Iris"], FileState::Outdated));
    assert_eq!(app.list_view(), ListView::Cards);
    assert!(app.update_all_offered());
}

#[test]
fn card_buttons() {
    let outdated = file(&["A"], FileState::Outdated);
    assert!(matches!(card_request(&outdated, CardButton::Delete), Some(ToBackend::DeleteMod { path }) if path == "/mods/f.jar"));
    assert!(matches!(card_request(&outdated, CardButton::Update), Some(ToBackend::UpdateMod { mod_file }) if mod_file.path == "/mods/f.jar"));
    let current = file(&["A"], FileState::Current);
    assert!(card_request(&current, CardButton::Update).is_none());
}

#[test]
fn opened_card_lines() {
    let f = file(&["A"], FileState::Current);
    let mut e = entry("A");
    assert_eq!(
        info_lines(&e, &f),
        vec![
            ("Version:", "2.1".to_string()),
            ("Description:", "None".to_string()),
            ("Authors:", "None".to_string()),
            ("Mod path:", "/mods/f.jar".to_string()),
        ]
    );
    e.description = Some("Fast".to_string());
    e.authors = Some("Jelly".to_string());
    let lines = info_lines(&e, &f);
    assert_eq!(lines[1], ("Description:", "Fast".to_string()));
    assert_eq!(lines[2], ("Authors:", "Jelly".to_string()));
}

#[test]
fn entries_shown_for_a_search() {
    let f = file(&["Fabric API", "Indium", "Fabric Language Kotlin"], FileState::Current);
    assert_eq!(shown_entries(&f, "fabric"), vec![0, 2]);
    assert_eq!(shown_entries(&f, ""), vec![0, 1, 2]);
    assert!(shown_entries(&f, "sodium").is_empty());
}

#[test]
fn icon_texture_keys() {
    let f = file(&["Sodium"], FileState::Current);
    assert_eq!(texture_key(&f, &f.entries[0]), "abcsodium");
}

#[test]
fn release_channel_names() {
    assert_eq!(version_type_text(VersionType::Release), "Release");
    assert_eq!(version_type_text(VersionType::Beta), "Beta");
    assert_eq!(version_type_text(VersionType::Alpha), "Alpha");
}

#[test]
fn requests_carry_the_files_as_shown() {
    let mut shown = file(&["Sodium", "Indium"], FileState::Outdated);
    shown.entries[0].icon = Some(vec![1, 2, 3]);
    shown.data.loaders = vec![ModLoader::Fabric, ModLoader::Forge];
    match card_request(&shown, CardButton::Update) {
        Some(ToBackend::UpdateMod { mod_file }) => {
            assert_eq!(mod_file.path, shown.path);
            assert_eq!(mod_file.hashes, shown.hashes);
            assert_eq!(mod_file.data.loaders, shown.data.loaders);
            assert_eq!(mod_file.entries.len(), 2);
            assert_eq!(mod_file.entries[0].icon, Some(vec![1, 2, 3]));
            assert_eq!(mod_file.entries[1].display_name, "Indium");
        }
        _ => panic!("expected an UpdateMod request"),
    }
    let mut app = MCubedAppUI::new();
    app.mod_list = vec![shown];
    match &app.scan_folder_requests()[0] {
        ToBackend::UpdateBackendList { mod_list } => {
            assert_eq!(mod_list[0].entries[0].display_name, "Sodium");
            assert_eq!(mod_list[0].data.state, FileState::Outdated);
        }
        _ => panic!("expected the list first"),
    }
}
