//! Messages between the user interface and the backend, and the work the
//! backend does for each of them.

use vstd::prelude::*;

use crate::error::Error;
use crate::mod_file::{ModFile, ModLoader};

verus! {

/// A request from the user interface to the backend.
pub enum ToBackend {
    Startup,
    Shutdown,
    ScanFolder,
    UpdateBackendList { mod_list: Vec<ModFile> },
    CheckForUpdates { game_version: String },
    GetVersionMetadata,
    AddMod { modrinth_id: String, game_version: String, modloader: ModLoader },
    UpdateAll,
    UpdateMod { mod_file: Box<ModFile> },
    DeleteMod { path: String },
}

/// A release of the game, as the list of game versions names it.
#[derive(Debug)]
pub struct GameVersion {
    /// The version's name, such as `1.19.2`.
    pub id: String,
}

impl Clone for GameVersion {
    fn clone(&self) -> (res: Self)
        ensures
            res == *self,
    {
        GameVersion { id: self.id.clone() }
    }
}

/// The list of game versions, newest first.
#[derive(Debug)]
pub struct VersionManifest {
    pub versions: Vec<GameVersion>,
}

/// A message from the backend to the user interface.
pub enum ToFrontend {
    SetVersionMetadata { manifest: VersionManifest },
    UpdateModList { mod_list: Vec<ModFile> },
    BackendError { error: BackendError },
}

/// An error the backend reports to the user interface.
#[derive(Debug)]
pub struct BackendError {
    /// A short description of the error.
    pub message: String,
    /// The error itself.
    pub error: Error,
}

impl BackendError {
    pub fn new(message: String, error: Error) -> (res: Self)
        ensures
            res == (BackendError { message, error }),
    {
        BackendError { message, error }
    }
}

/// One step of the backend's work.
#[derive(Clone, Copy, Debug, PartialEq, Eq, Structural)]
pub enum BackendTask {
    /// Read the cached mod list from disk.
    LoadListCache,
    /// Re-read the mods folder into the mod list.
    ScanFolder,
    /// Carry the cached data over to the mod list.
    TransferCacheToCurrent,
    /// Send the mod list to the user interface.
    SendList,
    /// Fetch the list of game versions.
    GetVersionMetadata,
    /// Write the settings to disk.
    SaveConfig,
    /// Save the mod list into the cache and write it to disk.
    SaveListCache,
    /// Stop handling messages.
    Stop,
    /// Take the mod list the message carries.
    ReplaceModList,
    /// Look the files up on Modrinth by their hashes.
    UpdateFileData,
    /// Check the files sourced from Modrinth for updates.
    CheckForUpdates,
    /// Fetch the mod the message names from Modrinth.
    AddMod,
    /// Update every outdated file.
    UpdateAllMods,
    /// Update the file the message carries.
    UpdateMod,
    /// Move the file the message names to the trash.
    DeleteMod,
    /// Ask the user interface to redraw.
    RequestRepaint,
}

/// The steps the backend takes, in order, for a message.
pub open spec fn spec_tasks_for(message: ToBackend) -> Seq<BackendTask> {
    match message {
        ToBackend::Startup => seq![
            BackendTask::LoadListCache,
            BackendTask::ScanFolder,
            BackendTask::TransferCacheToCurrent,
            BackendTask::SendList,
            BackendTask::GetVersionMetadata,
            BackendTask::RequestRepaint,
        ],
        ToBackend::Shutdown => seq![BackendTask::SaveConfig, BackendTask::SaveListCache, BackendTask::Stop],
        ToBackend::ScanFolder => seq![BackendTask::ScanFolder, BackendTask::SendList, BackendTask::RequestRepaint],
        ToBackend::UpdateBackendList { .. } => seq![BackendTask::ReplaceModList, BackendTask::RequestRepaint],
        ToBackend::CheckForUpdates { .. } => seq![
            BackendTask::ScanFolder,
            BackendTask::UpdateFileData,
            BackendTask::CheckForUpdates,
            BackendTask::SendList,
            BackendTask::RequestRepaint,
        ],
        ToBackend::GetVersionMetadata => seq![BackendTask::GetVersionMetadata, BackendTask::RequestRepaint],
        ToBackend::AddMod { .. } => seq![
            BackendTask::AddMod,
            BackendTask::ScanFolder,
            BackendTask::SendList,
            BackendTask::RequestRepaint,
        ],
        ToBackend::UpdateAll => seq![
            BackendTask::UpdateAllMods,
            BackendTask::ScanFolder,
            BackendTask::SendList,
            BackendTask::RequestRepaint,
        ],
        ToBackend::UpdateMod { .. } => seq![
            BackendTask::UpdateMod,
            BackendTask::ScanFolder,
            BackendTask::SendList,
            BackendTask::RequestRepaint,
        ],
        ToBackend::DeleteMod { .. } => seq![BackendTask::DeleteMod, BackendTask::RequestRepaint],
    }
}

/// The steps the backend takes, in order, for a message. Every message but
/// `Shutdown` ends with a repaint request; `Shutdown` ends with `Stop`.
pub fn tasks_for(message: &ToBackend) -> (res: Vec<BackendTask>)
    ensures
        res@ == spec_tasks_for(*message),
{
    let tasks = match message {
        ToBackend::Startup => vec![
            BackendTask::LoadListCache,
            BackendTask::ScanFolder,
            BackendTask::TransferCacheToCurrent,
            BackendTask::SendList,
            BackendTask::GetVersionMetadata,
            BackendTask::RequestRepaint,
        ],
        ToBackend::Shutdown => vec![BackendTask::SaveConfig, BackendTask::SaveListCache, BackendTask::Stop],
        ToBackend::ScanFolder => vec![BackendTask::ScanFolder, BackendTask::SendList, BackendTask::RequestRepaint],
        ToBackend::UpdateBackendList { .. } => vec![BackendTask::ReplaceModList, BackendTask::RequestRepaint],
        ToBackend::CheckForUpdates { .. } => vec![
            BackendTask::ScanFolder,
            BackendTask::UpdateFileData,
            BackendTask::CheckForUpdates,
            BackendTask::SendList,
            BackendTask::RequestRepaint,
        ],
        ToBackend::GetVersionMetadata => vec![BackendTask::GetVersionMetadata, BackendTask::RequestRepaint],
        ToBackend::AddMod { .. } => vec![
            BackendTask::AddMod,
            BackendTask::ScanFolder,
            BackendTask::SendList,
            BackendTask::RequestRepaint,
        ],
        ToBackend::UpdateAll => vec![
            BackendTask::UpdateAllMods,
            BackendTask::ScanFolder,
            BackendTask::SendList,
            BackendTask::RequestRepaint,
        ],
        ToBackend::UpdateMod { .. } => vec![
            BackendTask::UpdateMod,
            BackendTask::ScanFolder,
            BackendTask::SendList,
            BackendTask::RequestRepaint,
        ],
        ToBackend::DeleteMod { .. } => vec![BackendTask::DeleteMod, BackendTask::RequestRepaint],
    };
    assert(tasks@ =~= spec_tasks_for(*message));
    tasks
}

/// Only `Shutdown` stops the backend, and it stops it last.
pub proof fn lemma_only_shutdown_stops(message: ToBackend)
    ensures
        spec_tasks_for(message).contains(BackendTask::Stop) <==> message is Shutdown,
        message is Shutdown ==> spec_tasks_for(message).last() == BackendTask::Stop,
        !(message is Shutdown) ==> spec_tasks_for(message).last() == BackendTask::RequestRepaint,
{
    let tasks = spec_tasks_for(message);
    if message is Shutdown {
        assert(tasks[2] == BackendTask::Stop);
    } else {
        assert forall|i: int| 0 <= i < tasks.len() implies tasks[i] != BackendTask::Stop by {}
    }
}

/// Every message is carried out by its own step, which comes first: the
/// update of a file is run before the folder is rescanned, a mod is added,
/// deleted or updated before the list is sent again, an update check rescans
/// the folder, looks the files up and checks them, in that order, and
/// shutting down saves the settings and the cache before stopping.
pub proof fn lemma_own_step_first(message: ToBackend)
    ensures
        message is Startup ==> spec_tasks_for(message)[0] == BackendTask::LoadListCache
            && spec_tasks_for(message).contains(BackendTask::ScanFolder)
            && spec_tasks_for(message).contains(BackendTask::GetVersionMetadata),
        message is Shutdown ==> spec_tasks_for(message)[0] == BackendTask::SaveConfig
            && spec_tasks_for(message)[1] == BackendTask::SaveListCache
            && spec_tasks_for(message)[2] == BackendTask::Stop,
        message is ScanFolder ==> spec_tasks_for(message)[0] == BackendTask::ScanFolder
            && spec_tasks_for(message)[1] == BackendTask::SendList,
        message is UpdateBackendList ==> spec_tasks_for(message)[0] == BackendTask::ReplaceModList,
        message is CheckForUpdates ==> spec_tasks_for(message)[0] == BackendTask::ScanFolder
            && spec_tasks_for(message)[1] == BackendTask::UpdateFileData
            && spec_tasks_for(message)[2] == BackendTask::CheckForUpdates
            && spec_tasks_for(message)[3] == BackendTask::SendList,
        message is GetVersionMetadata ==> spec_tasks_for(message)[0] == BackendTask::GetVersionMetadata,
        message is AddMod ==> spec_tasks_for(message)[0] == BackendTask::AddMod
            && spec_tasks_for(message)[1] == BackendTask::ScanFolder
            && spec_tasks_for(message)[2] == BackendTask::SendList,
        message is UpdateAll ==> spec_tasks_for(message)[0] == BackendTask::UpdateAllMods
            && spec_tasks_for(message)[1] == BackendTask::ScanFolder
            && spec_tasks_for(message)[2] == BackendTask::SendList,
        message is UpdateMod ==> spec_tasks_for(message)[0] == BackendTask::UpdateMod
            && spec_tasks_for(message)[1] == BackendTask::ScanFolder
            && spec_tasks_for(message)[2] == BackendTask::SendList,
        message is DeleteMod ==> spec_tasks_for(message)[0] == BackendTask::DeleteMod,
{
}

} // verus!
