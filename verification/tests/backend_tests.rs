use mcubed::backend::{
    get_cdn_file, inherit_source_data, is_relevant_file, merge_into_cache, push_scan_result, remove_mod_by_path,
    transfer_list_data, transfer_list_data_to_current,
};
use mcubed::cdn_file::CdnFile;
use mcubed::error::Error;
use mcubed::messages::{tasks_for, BackendError, BackendTask, ToBackend};
use mcubed::mod_file::{CurrentSource, FileState, Hashes, ModFile, ModFileData, ModLoader, ModrinthData, Sources};

fn plain_data() -> ModFileData {
    ModFileData {
        state: FileState::Current,
        sourced_from: CurrentSource::NoSource,
        loaders: vec![ModLoader::Fabric],
        sources: Sources::default(),
    }
}

fn modrinth_data(project: &str, state: FileState, cdn: Option<CdnFile>) -> ModFileData {
    ModFileData {
        state,
        sourced_from: CurrentSource::Modrinth,
        loaders: vec![ModLoader::Fabric],
        sources: Sources {
            curseforge: None,
            modrinth: Some(ModrinthData { project_id: project.to_string(), version_id: None, cdn_file: cdn }),
        },
    }
}

fn file(sha1: &str, path: &str, data: ModFileData) -> ModFile {
    ModFile {
        entries: vec![],
        data,
        hashes: Hashes { sha1: sha1.to_string(), sha512: format!("{}-512", sha1) },
        path: path.to_string(),
    }
}

fn cdn(url: &str) -> CdnFile {
    CdnFile { url: url.to_string(), filename: "new.jar".to_string(), size: 5, hashes: None }
}

fn project_of(f: &ModFile) -> Option<String> {
    f.data.sources.modrinth.as_ref().map(|m| m.project_id.clone())
}

#[test]
fn transfer_takes_source_and_state() {
    let from = vec![file("a", "/old/a.jar", modrinth_data("pa", FileState::Outdated, None))];
    let mut to = vec![file("a", "/mods/a.jar", plain_data()), file("b", "/mods/b.jar", plain_data())];
    transfer_list_data(&from, &mut to, true);
    assert_eq!(to[0].data.sourced_from, CurrentSource::Modrinth);
    assert_eq!(to[0].data.state, FileState::Outdated);
    assert_eq!(project_of(&to[0]).as_deref(), Some("pa"));
    assert_eq!(to[0].path, "/mods/a.jar");
    assert_eq!(to[1].data.sourced_from, CurrentSource::NoSource);
    assert!(to[1].data.sources.modrinth.is_none());
}

#[test]
fn transfer_without_state_makes_files_current() {
    let from = vec![file("a", "/old/a.jar", modrinth_data("pa", FileState::Outdated, None))];
    let mut to = vec![file("a", "/mods/a.jar", plain_data())];
    transfer_list_data(&from, &mut to, false);
    assert_eq!(to[0].data.state, FileState::Current);
    assert_eq!(to[0].data.sourced_from, CurrentSource::Modrinth);
}

#[test]
fn transfer_uses_first_file_with_the_hash() {
    let from = vec![
        file("a", "/x.jar", modrinth_data("first", FileState::Current, None)),
        file("a", "/y.jar", modrinth_data("second", FileState::Current, None)),
    ];
    let mut to = vec![file("a", "/mods/a.jar", plain_data())];
    transfer_list_data_to_current(&mut to, &from);
    assert_eq!(project_of(&to[0]).as_deref(), Some("first"));
}

#[test]
fn transfer_twice_changes_nothing() {
    let from = vec![file("a", "/old/a.jar", modrinth_data("pa", FileState::Invalid, None))];
    let mut once = vec![file("a", "/mods/a.jar", plain_data()), file("c", "/mods/c.jar", plain_data())];
    transfer_list_data(&from, &mut once, true);
    let mut twice = once.clone();
    transfer_list_data(&from, &mut twice, true);
    for (x, y) in once.iter().zip(twice.iter()) {
        assert_eq!(x.data.state, y.data.state);
        assert_eq!(x.data.sourced_from, y.data.sourced_from);
        assert_eq!(project_of(x), project_of(y));
        assert_eq!(x.hashes, y.hashes);
    }
}

#[test]
fn merging_updates_known_files_and_appends_new_ones() {
    let mut cache = vec![file("a", "/mods/a.jar", plain_data()), file("z", "/mods/z.jar", plain_data())];
    let list = vec![
        file("a", "/mods/a.jar", modrinth_data("pa", FileState::Outdated, None)),
        file("c", "/mods/c.jar", plain_data()),
    ];
    merge_into_cache(&mut cache, list);
    assert_eq!(cache.len(), 3);
    assert_eq!(cache[0].hashes.sha1, "a");
    assert_eq!(cache[0].data.sourced_from, CurrentSource::Modrinth);
    assert_eq!(cache[0].data.state, FileState::Current);
    assert_eq!(cache[1].hashes.sha1, "z");
    assert_eq!(cache[2].hashes.sha1, "c");
}

#[test]
fn merged_cache_knows_every_listed_hash() {
    let mut cache = vec![];
    let list = vec![file("a", "/a.jar", plain_data()), file("b", "/b.jar", plain_data())];
    merge_into_cache(&mut cache, list);
    assert!(cache.iter().any(|f| f.hashes.sha1 == "a"));
    assert!(cache.iter().any(|f| f.hashes.sha1 == "b"));
}

#[test]
fn scan_results_are_pushed_until_an_error() {
    let mut list = vec![file("a", "/a.jar", plain_data())];
    assert!(push_scan_result(&mut list, Ok(file("b", "/b.jar", plain_data()))).is_none());
    assert_eq!(list.len(), 2);
    assert_eq!(list[1].hashes.sha1, "b");
    let err = push_scan_result(&mut list, Err(Error::MetadataInvalidModFile));
    assert!(matches!(err, Some(Error::MetadataInvalidModFile)));
    assert!(list.is_empty());
}

#[test]
fn deleting_removes_the_files_at_the_path() {
    let mut list = vec![
        file("a", "/mods/a.jar", plain_data()),
        file("b", "/mods/b.jar", plain_data()),
        file("c", "/mods/a.jar", plain_data()),
        file("d", "/mods/d.jar", plain_data()),
    ];
    remove_mod_by_path(&mut list, "/mods/a.jar");
    let shas: Vec<&str> = list.iter().map(|f| f.hashes.sha1.as_str()).collect();
    assert_eq!(shas, vec!["b", "d"]);
    remove_mod_by_path(&mut list, "/mods/none.jar");
    assert_eq!(list.len(), 2);
}

#[test]
fn cdn_file_of_modrinth_file() {
    let with = modrinth_data("p", FileState::Outdated, Some(cdn("https://cdn/new.jar")));
    assert_eq!(get_cdn_file(&with), Some(cdn("https://cdn/new.jar")));
    let without = modrinth_data("p", FileState::Current, None);
    assert_eq!(get_cdn_file(&without), None);
}

#[test]
fn new_file_inherits_sources() {
    let mut new_file = file("n", "/mods/n.jar", plain_data());
    let old = modrinth_data("p", FileState::Outdated, None);
    inherit_source_data(&mut new_file, &old);
    assert_eq!(new_file.data.sourced_from, CurrentSource::Modrinth);
    assert_eq!(project_of(&new_file).as_deref(), Some("p"));
    assert_eq!(new_file.data.state, FileState::Current);
    assert_eq!(new_file.hashes.sha1, "n");
}

#[test]
fn relevant_files_are_jar_files() {
    assert!(is_relevant_file(true, "sodium.jar"));
    assert!(is_relevant_file(true, "SODIUM.JaR"));
    assert!(is_relevant_file(true, ".jar"));
    assert!(is_relevant_file(true, "jar"));
    assert!(!is_relevant_file(false, "folder.jar"));
    assert!(!is_relevant_file(true, "sodium.jar.disabled"));
    assert!(!is_relevant_file(true, "mods.mCubed.json"));
    assert!(!is_relevant_file(true, "archive.jars"));
    assert!(!is_relevant_file(true, ""));
}

#[test]
fn startup_tasks() {
    assert_eq!(
        tasks_for(&ToBackend::Startup),
        vec![
            BackendTask::LoadListCache,
            BackendTask::ScanFolder,
            BackendTask::TransferCacheToCurrent,
            BackendTask::SendList,
            BackendTask::GetVersionMetadata,
            BackendTask::RequestRepaint,
        ]
    );
}

#[test]
fn only_shutdown_stops() {
    assert_eq!(
        tasks_for(&ToBackend::Shutdown),
        vec![BackendTask::SaveConfig, BackendTask::SaveListCache, BackendTask::Stop]
    );
    let others = vec![
        ToBackend::Startup,
        ToBackend::ScanFolder,
        ToBackend::UpdateBackendList { mod_list: vec![] },
        ToBackend::CheckForUpdates { game_version: "1.19".to_string() },
        ToBackend::GetVersionMetadata,
        ToBackend::AddMod { modrinth_id: "AANobbMI".to_string(), game_version: "1.19".to_string(), modloader: ModLoader::Fabric },
        ToBackend::UpdateAll,
        ToBackend::UpdateMod { mod_file: Box::new(file("a", "/a.jar", plain_data())) },
        ToBackend::DeleteMod { path: "/a.jar".to_string() },
    ];
    for message in &others {
        let tasks = tasks_for(message);
        assert!(!tasks.contains(&BackendTask::Stop));
        assert_eq!(tasks.last(), Some(&BackendTask::RequestRepaint));
    }
}

#[test]
fn check_for_updates_rescans_and_looks_up_first() {
    assert_eq!(
        tasks_for(&ToBackend::CheckForUpdates { game_version: "1.19".to_string() }),
        vec![
            BackendTask::ScanFolder,
            BackendTask::UpdateFileData,
            BackendTask::CheckForUpdates,
            BackendTask::SendList,
            BackendTask::RequestRepaint,
        ]
    );
    assert_eq!(
        tasks_for(&ToBackend::DeleteMod { path: "/a.jar".to_string() }),
        vec![BackendTask::DeleteMod, BackendTask::RequestRepaint]
    );
}

#[test]
fn backend_error_keeps_message_and_error() {
    let e = BackendError::new("Could not parse: x.jar".to_string(), Error::MetadataZipError);
    assert_eq!(e.message, "Could not parse: x.jar");
    assert!(matches!(e.error, Error::MetadataZipError));
}
