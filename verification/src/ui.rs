//! Decisions the user interface makes about what to show.

use vstd::prelude::*;

use crate::messages::{BackendError, GameVersion, ToBackend, ToFrontend};
use crate::mod_file::{same_file, CurrentSource, FileState, ModEntry, ModFile, ModFileData, ModLoader};
use crate::modrinth::structures::VersionType;

verus! {

/// Whether a prompt is shown.
#[derive(Clone, Copy, Debug, Default)]
pub struct State {
    is_shown: bool,
}

impl State {
    /// Whether the prompt is shown, in specifications.
    pub closed spec fn spec_is_shown(self) -> bool {
        self.is_shown
    }

    /// Shows or hides the prompt.
    pub fn shown(&mut self, shown: bool)
        ensures
            final(self).spec_is_shown() == shown,
    {
        self.is_shown = shown;
    }

    /// Whether the prompt is shown.
    pub fn is_shown(&self) -> (res: bool)
        ensures
            res == self.spec_is_shown(),
    {
        self.is_shown
    }
}

/// Progress of fetching several mods.
#[derive(Debug)]
pub struct FetchingModContext {
    /// The name of the mod.
    pub name: String,
    /// Its position among the mods being fetched.
    pub position: usize,
    /// The number of mods being fetched.
    pub total: usize,
}

/// A notice for the window about the mod list.
pub enum Message {
    /// The list of mods changed.
    UpdatedModList { list: Vec<ModEntry> },
    /// A mod is being fetched.
    FetchingMod { context: FetchingModContext },
}

/// The card a mod is shown on.
pub struct ModCard;

/// The settings screen.
pub struct SettingsUi;

/// `s` in lower case, as `str::to_lowercase` makes it.
pub uninterp spec fn spec_to_lowercase(s: Seq<char>) -> Seq<char>;

/// std's `str::to_lowercase`. Claimed: the result is a function of the text,
/// and the empty text stays empty (each character is replaced by its
/// lowercase mapping, and there are none).
#[verifier::external_body]
fn to_lowercase(s: &str) -> (res: String)
    ensures
        res@ == spec_to_lowercase(s@),
        s@.len() == 0 ==> res@.len() == 0,
{
    s.to_lowercase()
}

/// Whether `needle` occurs in `haystack`.
pub open spec fn has_substring(haystack: Seq<char>, needle: Seq<char>) -> bool {
    exists|i: int| 0 <= i <= haystack.len() - needle.len() && #[trigger] haystack.subrange(i, i + needle.len()) == needle
}

/// Whether `needle` occurs in `haystack` at `start`.
fn occurs_at(haystack: &Vec<char>, needle: &Vec<char>, start: usize) -> (res: bool)
    requires
        start + needle@.len() <= haystack@.len(),
    ensures
        res == (haystack@.subrange(start as int, start + needle@.len()) == needle@),
{
    let total = haystack.len();
    let mut k: usize = 0;
    while k < needle.len()
        invariant
            k <= needle@.len(),
            total == haystack@.len(),
            start + needle@.len() <= haystack@.len(),
            forall|j: int| 0 <= j < k ==> haystack@[start + j] == needle@[j],
        decreases needle.len() - k,
    {
        if haystack[start + k] != needle[k] {
            assert(haystack@.subrange(start as int, start + needle@.len())[k as int] != needle@[k as int]);
            return false;
        }
        k = k + 1;
    }
    assert(haystack@.subrange(start as int, start + needle@.len()) =~= needle@);
    true
}

/// Whether `needle` occurs in `haystack`.
pub fn contains_substring(haystack: &str, needle: &str) -> (res: bool)
    ensures
        res == has_substring(haystack@, needle@),
{
    let h = crate::text::chars_of(haystack);
    let n = crate::text::chars_of(needle);
    if n.len() > h.len() {
        return false;
    }
    let last = h.len() - n.len();
    let mut i: usize = 0;
    loop
        invariant
            n@.len() <= h@.len(),
            last == h@.len() - n@.len(),
            h@ == haystack@,
            n@ == needle@,
            i <= last,
            forall|j: int| 0 <= j < i ==> #[trigger] h@.subrange(j, j + n@.len()) != n@,
        decreases last - i,
    {
        if occurs_at(&h, &n, i) {
            return true;
        }
        if i == last {
            return false;
        }
        i = i + 1;
    }
}

/// Whether a mod is shown for the search text: its name holds the search
/// text, both in lower case.
pub open spec fn spec_matches_search(display_name: Seq<char>, search: Seq<char>) -> bool {
    has_substring(spec_to_lowercase(display_name), spec_to_lowercase(search))
}

/// Whether a mod is shown for the search text.
pub fn entry_matches_search(entry: &ModEntry, search: &str) -> (res: bool)
    ensures
        res == spec_matches_search(entry.display_name@, search@),
        search@.len() == 0 ==> res,
{
    let name = to_lowercase(entry.display_name.as_str());
    let text = to_lowercase(search);
    let res = contains_substring(name.as_str(), text.as_str());
    proof {
        if search@.len() == 0 {
            assert(name@.subrange(0int, 0int + text@.len()) =~= text@);
            assert(has_substring(name@, text@));
        }
    }
    res
}

/// Whether some mod of the file is shown for the search text.
pub open spec fn spec_file_matches_search(file: ModFile, search: Seq<char>) -> bool {
    exists|i: int| 0 <= i < file.entries@.len() && spec_matches_search(#[trigger] file.entries@[i].display_name@, search)
}

/// Whether some mod of the file is shown for the search text.
pub fn file_matches_search(file: &ModFile, search: &str) -> (res: bool)
    ensures
        res == spec_file_matches_search(*file, search@),
{
    let mut i: usize = 0;
    while i < file.entries.len()
        invariant
            i <= file.entries@.len(),
            forall|j: int| 0 <= j < i ==> !spec_matches_search(#[trigger] file.entries@[j].display_name@, search@),
        decreases file.entries.len() - i,
    {
        if entry_matches_search(&file.entries[i], search) {
            return true;
        }
        i = i + 1;
    }
    false
}

/// Whether some mod of the list is shown for the search text.
pub fn any_search_result(files: &Vec<ModFile>, search: &str) -> (res: bool)
    ensures
        res == exists|i: int| 0 <= i < files@.len() && spec_file_matches_search(#[trigger] files@[i], search@),
{
    let mut i: usize = 0;
    while i < files.len()
        invariant
            i <= files@.len(),
            forall|j: int| 0 <= j < i ==> !spec_file_matches_search(#[trigger] files@[j], search@),
        decreases files.len() - i,
    {
        if file_matches_search(&files[i], search) {
            return true;
        }
        i = i + 1;
    }
    false
}

/// Whether some file is outdated (the "Update All" button is offered then).
pub fn any_outdated(files: &Vec<ModFile>) -> (res: bool)
    ensures
        res == exists|i: int| 0 <= i < files@.len() && #[trigger] files@[i].data.state == FileState::Outdated,
{
    let mut i: usize = 0;
    while i < files.len()
        invariant
            i <= files@.len(),
            forall|j: int| 0 <= j < i ==> #[trigger] files@[j].data.state != FileState::Outdated,
        decreases files.len() - i,
    {
        if files[i].data.state == FileState::Outdated {
            return true;
        }
        i = i + 1;
    }
    false
}

/// The status icon shown for a file.
#[derive(Clone, Copy, Debug, PartialEq, Eq, Structural)]
pub enum StatusIcon {
    Fine,
    Outdated,
    Invalid,
}

/// The status icon of a file: a local file is shown as fine.
pub fn status_icon(state: FileState) -> (res: StatusIcon)
    ensures
        res == match state {
            FileState::Current | FileState::Local => StatusIcon::Fine,
            FileState::Outdated => StatusIcon::Outdated,
            FileState::Invalid => StatusIcon::Invalid,
        },
{
    match state {
        FileState::Current => StatusIcon::Fine,
        FileState::Outdated => StatusIcon::Outdated,
        FileState::Invalid => StatusIcon::Invalid,
        FileState::Local => StatusIcon::Fine,
    }
}

/// The sources a file can be switched to, in the order they are offered:
/// local always, CurseForge and Modrinth when the file is known there.
pub open spec fn spec_source_options(data: ModFileData) -> Seq<CurrentSource> {
    seq![CurrentSource::Local]
        + (if data.sources.curseforge is Some { seq![CurrentSource::CurseForge] } else { seq![] })
        + (if data.sources.modrinth is Some { seq![CurrentSource::Modrinth] } else { seq![] })
}

/// The sources a file can be switched to.
pub fn source_options(data: &ModFileData) -> (res: Vec<CurrentSource>)
    ensures
        res@ == spec_source_options(*data),
{
    let mut res: Vec<CurrentSource> = Vec::new();
    res.push(CurrentSource::Local);
    if data.sources.curseforge.is_some() {
        res.push(CurrentSource::CurseForge);
    }
    if data.sources.modrinth.is_some() {
        res.push(CurrentSource::Modrinth);
    }
    assert(res@ =~= spec_source_options(*data));
    res
}


/// The size, in pixels, that mod icons are resized to for display.
pub const ICON_RESIZE_QUALITY: u32 = 128;

/// What the backend is busy with, as the window shows it.
#[derive(Debug)]
pub struct BackendContext {
    /// An update check was asked for and its answer has not arrived yet.
    pub checking_for_updates: bool,
    /// The errors reported by the backend and not yet closed.
    pub backend_errors: Vec<BackendError>,
}

/// What the central panel shows in place of the list of mods.
#[derive(Clone, Copy, Debug, PartialEq, Eq, Structural)]
pub enum ListView {
    /// "There are no mods to display".
    NoMods,
    /// "No mods match your search".
    NoMatch,
    /// The cards of the mods.
    Cards,
}

/// The state of the main window and the requests it makes to the backend.
#[derive(Debug)]
pub struct MCubedAppUI {
    pub search_buf: String,
    pub add_mod_buf: String,
    pub mod_list: Vec<ModFile>,
    pub game_version_list: Vec<GameVersion>,
    pub selected_version: Option<GameVersion>,
    pub selected_modloader: ModLoader,
    pub backend_context: BackendContext,
}

/// The view the central panel shows for a list of files and a search text.
pub open spec fn spec_list_view(files: Seq<ModFile>, search: Seq<char>) -> ListView {
    if files.len() == 0 {
        ListView::NoMods
    } else if !(exists|i: int| 0 <= i < files.len() && spec_file_matches_search(#[trigger] files[i], search))
        && search.len() != 0 {
        ListView::NoMatch
    } else {
        ListView::Cards
    }
}

/// Whether `copy` holds the files of `files`, field by field, in order.
pub open spec fn same_list(files: Seq<ModFile>, copy: Seq<ModFile>) -> bool {
    &&& copy.len() == files.len()
    &&& forall|i: int| 0 <= i < files.len() ==> same_file(#[trigger] copy[i], files[i])
}

/// A clone of a list of files holds the same files, field by field.
proof fn lemma_clone_is_same_list(files: Seq<ModFile>, copy: Seq<ModFile>)
    requires
        copy.len() == files.len(),
        forall|i: int| 0 <= i < files.len() ==> cloned::<ModFile>(files[i], #[trigger] copy[i]),
    ensures
        same_list(files, copy),
{
    assert forall|i: int| 0 <= i < files.len() implies same_file(#[trigger] copy[i], files[i]) by {
        assert(cloned::<ModFile>(files[i], copy[i]));
        if copy[i] == files[i] {
            assert forall|k: int| 0 <= k < copy[i].entries@.len() implies
                crate::mod_file::same_entry(#[trigger] copy[i].entries@[k], files[i].entries@[k]) by {}
        }
    }
}

impl MCubedAppUI {
    /// The window before the backend has answered: no mods, no game
    /// versions, nothing typed, the loader choice at its default.
    pub fn new() -> (res: Self)
        ensures
            res.search_buf@.len() == 0,
            res.add_mod_buf@.len() == 0,
            res.mod_list@.len() == 0,
            res.game_version_list@.len() == 0,
            res.selected_version is None,
            res.selected_modloader == ModLoader::Both,
            !res.backend_context.checking_for_updates,
            res.backend_context.backend_errors@.len() == 0,
    {
        MCubedAppUI {
            search_buf: String::new(),
            add_mod_buf: String::new(),
            mod_list: Vec::new(),
            game_version_list: Vec::new(),
            selected_version: None,
            selected_modloader: ModLoader::Both,
            backend_context: BackendContext { checking_for_updates: false, backend_errors: Vec::new() },
        }
    }

    /// Takes in a message of the backend: a list of game versions (whose
    /// first, newest, version becomes the selected one), a new mod list (which
    /// ends an update check), or an error to show.
    pub fn handle_message(&mut self, message: ToFrontend)
        requires
            message matches ToFrontend::SetVersionMetadata { manifest } ==> manifest.versions@.len() > 0,
        ensures
            match message {
                ToFrontend::SetVersionMetadata { manifest } => {
                    &&& final(self).selected_version == Some(manifest.versions@[0])
                    &&& final(self).game_version_list == manifest.versions
                    &&& final(self).mod_list == old(self).mod_list
                    &&& final(self).backend_context == old(self).backend_context
                },
                ToFrontend::UpdateModList { mod_list } => {
                    &&& final(self).mod_list == mod_list
                    &&& !final(self).backend_context.checking_for_updates
                    &&& final(self).backend_context.backend_errors == old(self).backend_context.backend_errors
                    &&& final(self).selected_version == old(self).selected_version
                    &&& final(self).game_version_list == old(self).game_version_list
                },
                ToFrontend::BackendError { error } => {
                    &&& final(self).backend_context.backend_errors@ == old(self).backend_context.backend_errors@.push(error)
                    &&& final(self).backend_context.checking_for_updates == old(self).backend_context.checking_for_updates
                    &&& final(self).mod_list == old(self).mod_list
                    &&& final(self).selected_version == old(self).selected_version
                    &&& final(self).game_version_list == old(self).game_version_list
                },
            },
            final(self).search_buf == old(self).search_buf,
            final(self).add_mod_buf == old(self).add_mod_buf,
            final(self).selected_modloader == old(self).selected_modloader,
    {
        match message {
            ToFrontend::SetVersionMetadata { manifest } => {
                self.selected_version = Some(manifest.versions[0].clone());
                self.game_version_list = manifest.versions;
            },
            ToFrontend::UpdateModList { mod_list } => {
                self.backend_context.checking_for_updates = false;
                self.mod_list = mod_list;
            },
            ToFrontend::BackendError { error } => {
                self.backend_context.backend_errors.push(error);
            },
        }
    }

    /// The text of the game version picker: the selected version; "Loading..."
    /// while no versions are known; else the first version, which becomes the
    /// selected one.
    pub fn selected_version_text(&mut self) -> (res: String)
        ensures
            match old(self).selected_version {
                Some(v) => res@ == v.id@ && final(self).selected_version == old(self).selected_version,
                None => if old(self).game_version_list@.len() == 0 {
                    res@ == "Loading..."@ && final(self).selected_version is None
                } else {
                    &&& final(self).selected_version == Some(old(self).game_version_list@[0])
                    &&& res@ == old(self).game_version_list@[0].id@
                },
            },
            final(self).game_version_list == old(self).game_version_list,
            final(self).mod_list == old(self).mod_list,
            final(self).search_buf == old(self).search_buf,
            final(self).add_mod_buf == old(self).add_mod_buf,
            final(self).selected_modloader == old(self).selected_modloader,
            final(self).backend_context == old(self).backend_context,
    {
        match &self.selected_version {
            Some(v) => v.id.clone(),
            None => {
                if self.game_version_list.len() == 0 {
                    String::from_str("Loading...")
                } else {
                    let first = self.game_version_list[0].clone();
                    let text = first.id.clone();
                    self.selected_version = Some(first);
                    text
                }
            },
        }
    }

    /// The request made by the "Fetch Mod" button: the typed Modrinth id or
    /// slug for the selected game version and loader, when a version is
    /// selected and something was typed.
    pub fn fetch_mod_request(&self) -> (res: Option<ToBackend>)
        ensures
            match self.selected_version {
                Some(v) => if self.add_mod_buf@.len() != 0 {
                    res matches Some(ToBackend::AddMod { modrinth_id, game_version, modloader })
                        && modrinth_id == self.add_mod_buf && game_version == v.id
                        && modloader == self.selected_modloader
                } else {
                    res is None
                },
                None => res is None,
            },
    {
        match &self.selected_version {
            Some(version) => {
                if self.add_mod_buf.as_str().is_empty() {
                    None
                } else {
                    Some(ToBackend::AddMod {
                        modrinth_id: self.add_mod_buf.clone(),
                        game_version: version.id.clone(),
                        modloader: self.selected_modloader,
                    })
                }
            },
            None => None,
        }
    }

    /// The requests made by the "Scan Folder" button: hand the backend the
    /// list as shown, then rescan the folder.
    pub fn scan_folder_requests(&self) -> (res: Vec<ToBackend>)
        ensures
            res@.len() == 2,
            res@[0] matches ToBackend::UpdateBackendList { mod_list } && same_list(self.mod_list@, mod_list@),
            res@[1] is ScanFolder,
    {
        let list = self.mod_list.clone();
        proof { lemma_clone_is_same_list(self.mod_list@, list@); }
        vec![ToBackend::UpdateBackendList { mod_list: list }, ToBackend::ScanFolder]
    }

    /// The request made by the "Refresh" button: an update check for the
    /// selected game version, which the window then waits for. Nothing
    /// happens while no version is selected.
    pub fn refresh_request(&mut self) -> (res: Option<ToBackend>)
        ensures
            match old(self).selected_version {
                Some(v) => {
                    &&& res matches Some(ToBackend::CheckForUpdates { game_version }) && game_version == v.id
                    &&& final(self).backend_context.checking_for_updates
                },
                None => res is None && final(self).backend_context.checking_for_updates
                    == old(self).backend_context.checking_for_updates,
            },
            final(self).backend_context.backend_errors == old(self).backend_context.backend_errors,
            final(self).mod_list == old(self).mod_list,
            final(self).selected_version == old(self).selected_version,
            final(self).game_version_list == old(self).game_version_list,
            final(self).search_buf == old(self).search_buf,
            final(self).add_mod_buf == old(self).add_mod_buf,
            final(self).selected_modloader == old(self).selected_modloader,
    {
        match &self.selected_version {
            Some(version) => {
                let game_version = version.id.clone();
                self.backend_context.checking_for_updates = true;
                Some(ToBackend::CheckForUpdates { game_version })
            },
            None => None,
        }
    }

    /// Whether the "Update All" button is shown: some file is outdated.
    pub fn update_all_offered(&self) -> (res: bool)
        ensures
            res == exists|i: int| 0 <= i < self.mod_list@.len() && #[trigger] self.mod_list@[i].data.state == FileState::Outdated,
    {
        any_outdated(&self.mod_list)
    }

    /// What the central panel shows: a note when there are no mods, a note
    /// when a search text matches no mod, else the cards.
    pub fn list_view(&self) -> (res: ListView)
        ensures
            res == spec_list_view(self.mod_list@, self.search_buf@),
    {
        if self.mod_list.len() == 0 {
            ListView::NoMods
        } else if !any_search_result(&self.mod_list, self.search_buf.as_str()) && !self.search_buf.as_str().is_empty() {
            ListView::NoMatch
        } else {
            ListView::Cards
        }
    }

    /// Closes the error shown at `index`.
    pub fn close_error(&mut self, index: usize)
        requires
            index < old(self).backend_context.backend_errors@.len(),
        ensures
            final(self).backend_context.backend_errors@ == old(self).backend_context.backend_errors@.remove(index as int),
            final(self).backend_context.checking_for_updates == old(self).backend_context.checking_for_updates,
            final(self).mod_list == old(self).mod_list,
            final(self).selected_version == old(self).selected_version,
            final(self).game_version_list == old(self).game_version_list,
            final(self).search_buf == old(self).search_buf,
            final(self).add_mod_buf == old(self).add_mod_buf,
            final(self).selected_modloader == old(self).selected_modloader,
    {
        self.backend_context.backend_errors.remove(index);
    }

    /// The requests made when the window closes: hand the backend the list
    /// as shown, then shut it down.
    pub fn exit_requests(&self) -> (res: Vec<ToBackend>)
        ensures
            res@.len() == 2,
            res@[0] matches ToBackend::UpdateBackendList { mod_list } && same_list(self.mod_list@, mod_list@),
            res@[1] is Shutdown,
    {
        let list = self.mod_list.clone();
        proof { lemma_clone_is_same_list(self.mod_list@, list@); }
        vec![ToBackend::UpdateBackendList { mod_list: list }, ToBackend::Shutdown]
    }
}

/// A button of a mod card.
#[derive(Clone, Copy, Debug, PartialEq, Eq, Structural)]
pub enum CardButton {
    /// The bin: move the file to the trash.
    Delete,
    /// "Update", shown for outdated files only.
    Update,
}

/// Whether a card shows the "Update" button: its file is outdated.
pub open spec fn spec_update_offered(file: ModFile) -> bool {
    file.data.state == FileState::Outdated
}

/// The request a click on a button of a file's card makes: deleting the file
/// at its path, or updating the file (only offered when it is outdated).
pub fn card_request(file: &ModFile, button: CardButton) -> (res: Option<ToBackend>)
    ensures
        match button {
            CardButton::Delete => res matches Some(ToBackend::DeleteMod { path }) && path == file.path,
            CardButton::Update => if spec_update_offered(*file) {
                res matches Some(ToBackend::UpdateMod { mod_file }) && same_file(*mod_file, *file)
            } else {
                res is None
            },
        },
{
    match button {
        CardButton::Delete => Some(ToBackend::DeleteMod { path: file.path.clone() }),
        CardButton::Update => {
            if file.data.state == FileState::Outdated {
                let copy = file.clone();
                Some(ToBackend::UpdateMod { mod_file: Box::new(copy) })
            } else {
                None
            }
        },
    }
}

/// The text shown for an optional field: the field, or "None".
pub open spec fn or_none(field: Option<String>) -> Seq<char> {
    match field {
        Some(text) => text@,
        None => "None"@,
    }
}

/// The lines shown when a mod card is opened, as (header, text) pairs.
pub open spec fn spec_info_lines(entry: ModEntry, file: ModFile) -> Seq<(Seq<char>, Seq<char>)> {
    seq![
        ("Version:"@, entry.version@),
        ("Description:"@, or_none(entry.description)),
        ("Authors:"@, or_none(entry.authors)),
        ("Mod path:"@, file.path@),
    ]
}

/// The text of an optional field, or "None".
fn text_or_none(field: &Option<String>) -> (res: String)
    ensures
        res@ == or_none(*field),
{
    match field {
        Some(text) => text.clone(),
        None => String::from_str("None"),
    }
}

/// The lines shown when a mod card is opened: version, description, authors
/// and the path of the file, with "None" for what the mod does not say.
pub fn info_lines(entry: &ModEntry, file: &ModFile) -> (res: Vec<(&'static str, String)>)
    ensures
        res@.map_values(|l: (&'static str, String)| (l.0@, l.1@)) == spec_info_lines(*entry, *file),
{
    let mut res: Vec<(&'static str, String)> = Vec::new();
    res.push(("Version:", entry.version.clone()));
    res.push(("Description:", text_or_none(&entry.description)));
    res.push(("Authors:", text_or_none(&entry.authors)));
    res.push(("Mod path:", file.path.clone()));
    assert(res@.map_values(|l: (&'static str, String)| (l.0@, l.1@)) =~= spec_info_lines(*entry, *file));
    res
}

/// The positions of the entries of a file that are shown for a search text.
pub fn shown_entries(file: &ModFile, search: &str) -> (res: Vec<usize>)
    ensures
        forall|k: int| 0 <= k < res@.len() ==> #[trigger] res@[k] < file.entries@.len(),
        forall|k: int, l: int| 0 <= k < l < res@.len() ==> #[trigger] res@[k] < #[trigger] res@[l],
        forall|i: int| 0 <= i < file.entries@.len() ==> (
            spec_matches_search(#[trigger] file.entries@[i].display_name@, search@) <==> res@.contains(i as usize)),
        search@.len() == 0 ==> forall|i: int| 0 <= i < file.entries@.len() ==> #[trigger] res@.contains(i as usize),
{
    let mut res: Vec<usize> = Vec::new();
    let mut i: usize = 0;
    while i < file.entries.len()
        invariant
            i <= file.entries@.len(),
            forall|k: int| 0 <= k < res@.len() ==> #[trigger] res@[k] < i,
            forall|k: int, l: int| 0 <= k < l < res@.len() ==> #[trigger] res@[k] < #[trigger] res@[l],
            forall|j: int| 0 <= j < i ==> (
                spec_matches_search(#[trigger] file.entries@[j].display_name@, search@) <==> res@.contains(j as usize)),
            search@.len() == 0 ==> forall|j: int| 0 <= j < i ==> spec_matches_search(#[trigger] file.entries@[j].display_name@, search@),
        decreases file.entries.len() - i,
    {
        let ghost before = res@;
        if entry_matches_search(&file.entries[i], search) {
            res.push(i);
        }
        assert forall|j: int| 0 <= j < i + 1 implies (
            spec_matches_search(#[trigger] file.entries@[j].display_name@, search@) <==> res@.contains(j as usize)) by {
            if j < i {
                if before.contains(j as usize) {
                    let k = choose|k: int| 0 <= k < before.len() && before[k] == j as usize;
                    assert(res@[k] == j as usize);
                }
                if res@.contains(j as usize) {
                    let k = choose|k: int| 0 <= k < res@.len() && res@[k] == j as usize;
                    if k < before.len() {
                        assert(before[k] == j as usize);
                    }
                }
            } else {
                if res@.contains(j as usize) && !spec_matches_search(file.entries@[j].display_name@, search@) {
                    let k = choose|k: int| 0 <= k < res@.len() && res@[k] == j as usize;
                    assert(res@ == before);
                }
                if spec_matches_search(file.entries@[j].display_name@, search@) {
                    assert(res@[before.len() as int] == i);
                }
            }
        }
        i = i + 1;
    }
    assert forall|j: int| search@.len() == 0 && 0 <= j < file.entries@.len() implies #[trigger] res@.contains(j as usize) by {
        assert(spec_matches_search(file.entries@[j].display_name@, search@));
    }
    res
}

/// The key a mod's icon texture is kept under: the file's SHA-1 hash
/// followed by the mod's id.
pub fn texture_key(file: &ModFile, entry: &ModEntry) -> (res: String)
    ensures
        res@ == file.hashes.sha1@ + entry.id@,
{
    let mut key = file.hashes.sha1.clone();
    key.append(entry.id.as_str());
    key
}

/// The name a release channel is shown under in the settings.
pub open spec fn version_type_label(version_type: VersionType) -> Seq<char> {
    match version_type {
        VersionType::Release => "Release"@,
        VersionType::Beta => "Beta"@,
        VersionType::Alpha => "Alpha"@,
    }
}

/// The name a release channel is shown under in the settings.
pub fn version_type_text(version_type: VersionType) -> (res: &'static str)
    ensures
        res@ == version_type_label(version_type),
{
    match version_type {
        VersionType::Release => "Release",
        VersionType::Beta => "Beta",
        VersionType::Alpha => "Alpha",
    }
}

} // verus!
