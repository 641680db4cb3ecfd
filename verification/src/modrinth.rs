//! Decisions about Modrinth data: which files to ask about, and what the
//! answers mean for them.

use vstd::prelude::*;

pub mod structures;

use crate::cdn_file::{cdn_file_of, CdnFile};
use crate::mod_file::version::views;
use crate::mod_file::{
    modloader_id, Hashes, CurrentSource, FileState, ModFile, ModFileData, ModLoader, ModrinthData, Sources,
};
use self::structures::{Version, VersionType};

verus! {

/// The release channels at least as stable as `min_ver`, most stable first.
pub open spec fn channels_from(min_ver: VersionType) -> Seq<VersionType> {
    match min_ver {
        VersionType::Release => seq![VersionType::Release],
        VersionType::Beta => seq![VersionType::Release, VersionType::Beta],
        VersionType::Alpha => seq![VersionType::Release, VersionType::Beta, VersionType::Alpha],
    }
}

/// The release channels accepted when looking for updates: those at least as
/// stable as the configured minimum channel.
pub fn accepted_versions_vec(min_ver: VersionType) -> (res: Vec<VersionType>)
    ensures
        res@ == channels_from(min_ver),
{
    let mut allowed_versions: Vec<VersionType> = Vec::new();
    allowed_versions.push(VersionType::Release);
    if min_ver != VersionType::Release {
        allowed_versions.push(VersionType::Beta);
        if min_ver == VersionType::Alpha {
            allowed_versions.push(VersionType::Alpha);
        }
    }
    assert(allowed_versions@ =~= channels_from(min_ver));
    allowed_versions
}

/// Whether a file takes part in update checks: it is sourced from Modrinth
/// and its Modrinth data is known.
pub open spec fn spec_needs_update_check(data: ModFileData) -> bool {
    data.sourced_from == CurrentSource::Modrinth && data.sources.modrinth is Some
}

/// Whether a file takes part in update checks.
pub fn needs_update_check(data: &ModFileData) -> (res: bool)
    ensures
        res == spec_needs_update_check(*data),
{
    data.sourced_from == CurrentSource::Modrinth && data.sources.modrinth.is_some()
}

/// Whether a version can replace a file with the loaders `loaders`: its
/// channel is accepted, it supports every one of the loaders, and it has files.
pub open spec fn is_candidate(version: Version, accepted: Seq<VersionType>, loaders: Seq<ModLoader>) -> bool {
    &&& accepted.contains(version.version_type)
    &&& forall|k: int| 0 <= k < loaders.len() ==> views(version.loaders@).contains(modloader_id(#[trigger] loaders[k]))
    &&& version.files@.len() > 0
}

/// Whether some of the version's loaders is named `id`.
pub open spec fn lists_loader(version: Version, id: Seq<char>) -> bool {
    exists|j: int| 0 <= j < version.loaders@.len() && #[trigger] version.loaders@[j]@ == id
}

/// A version is a candidate exactly when its channel is any one of the
/// accepted channels (wherever it stands among them), each of the file's
/// loaders is among the version's loaders (by its Modrinth name), and the
/// version has a file.
pub proof fn lemma_candidate_rule(version: Version, accepted: Seq<VersionType>, loaders: Seq<ModLoader>)
    ensures
        is_candidate(version, accepted, loaders) <==> {
            &&& exists|i: int| 0 <= i < accepted.len() && accepted[i] == version.version_type
            &&& forall|k: int| 0 <= k < loaders.len() ==> lists_loader(version, modloader_id(#[trigger] loaders[k]))
            &&& version.files@.len() > 0
        },
{
    assert forall|k: int| 0 <= k < loaders.len() implies (
        views(version.loaders@).contains(modloader_id(#[trigger] loaders[k]))
            <==> lists_loader(version, modloader_id(loaders[k]))) by {
        if views(version.loaders@).contains(modloader_id(loaders[k])) {
            let j = choose|j: int| 0 <= j < views(version.loaders@).len() && views(version.loaders@)[j] == modloader_id(loaders[k]);
            assert(version.loaders@[j]@ == modloader_id(loaders[k]));
        }
        if lists_loader(version, modloader_id(loaders[k])) {
            let j = choose|j: int| 0 <= j < version.loaders@.len() && #[trigger] version.loaders@[j]@ == modloader_id(loaders[k]);
            assert(views(version.loaders@)[j] == modloader_id(loaders[k]));
        }
    }
    if accepted.contains(version.version_type) {
        let i = choose|i: int| 0 <= i < accepted.len() && accepted[i] == version.version_type;
        assert(0 <= i < accepted.len() && accepted[i] == version.version_type);
    }
}

/// When the newest listed version is in an accepted channel, supports the
/// file's loaders and has a file, and is not the local copy, the check marks
/// the file outdated and keeps that version's first file for the update.
pub proof fn lemma_newest_candidate_is_offered(data: ModFileData, list: Seq<Version>, accepted: Seq<VersionType>, i: int)
    requires
        data.sources.modrinth is Some,
        list.len() > 0,
        0 <= i < accepted.len(),
        accepted[i] == list[0].version_type,
        forall|k: int| 0 <= k < data.loaders@.len() ==> lists_loader(list[0], modloader_id(#[trigger] data.loaders@[k])),
        list[0].files@.len() > 0,
        !(data.sources.modrinth.unwrap().version_id matches Some(id) && id@ == list[0].id@),
    ensures
        data_after_check(data, list, accepted).state == FileState::Outdated,
        data_after_check(data, list, accepted).sources.modrinth matches Some(m)
            && m.cdn_file == Some(cdn_file_of(list[0].files@[0])),
{
    lemma_candidate_rule(list[0], accepted, data.loaders@);
    assert(accepted.contains(list[0].version_type));
    assert(is_candidate(list[0], accepted, data.loaders@));
}

/// The first version of the list that can replace the file.
pub open spec fn first_candidate(
    list: Seq<Version>,
    accepted: Seq<VersionType>,
    loaders: Seq<ModLoader>,
) -> Option<Version>
    decreases list.len(),
{
    if list.len() == 0 {
        None
    } else if is_candidate(list[0], accepted, loaders) {
        Some(list[0])
    } else {
        first_candidate(list.drop_first(), accepted, loaders)
    }
}

/// Whether the list of strings holds `s`.
fn strings_contain(list: &Vec<String>, s: &str) -> (res: bool)
    ensures
        res == views(list@).contains(s@),
{
    let mut i: usize = 0;
    while i < list.len()
        invariant
            i <= list.len(),
            forall|j: int| 0 <= j < i ==> list@[j]@ != s@,
        decreases list.len() - i,
    {
        if crate::text::str_eq(list[i].as_str(), s) {
            assert(views(list@)[i as int] == s@);
            return true;
        }
        i = i + 1;
    }
    false
}

/// Whether the list of channels holds `t`.
fn channels_contain(list: &Vec<VersionType>, t: VersionType) -> (res: bool)
    ensures
        res == list@.contains(t),
{
    let mut i: usize = 0;
    while i < list.len()
        invariant
            i <= list.len(),
            forall|j: int| 0 <= j < i ==> list@[j] != t,
        decreases list.len() - i,
    {
        if list[i] == t {
            return true;
        }
        i = i + 1;
    }
    false
}

/// Whether `version` can replace a file with the loaders `loaders`.
pub fn version_is_candidate(version: &Version, accepted: &Vec<VersionType>, loaders: &Vec<ModLoader>) -> (res: bool)
    ensures
        res == is_candidate(*version, accepted@, loaders@),
{
    if !channels_contain(accepted, version.version_type) || version.files.len() == 0 {
        return false;
    }
    let mut k: usize = 0;
    while k < loaders.len()
        invariant
            k <= loaders.len(),
            forall|j: int| 0 <= j < k ==> views(version.loaders@).contains(modloader_id(#[trigger] loaders@[j])),
        decreases loaders.len() - k,
    {
        if !strings_contain(&version.loaders, loaders[k].as_str()) {
            return false;
        }
        k = k + 1;
    }
    true
}

/// The index of the first version of the list that can replace the file.
fn find_first_candidate(list: &Vec<Version>, accepted: &Vec<VersionType>, loaders: &Vec<ModLoader>) -> (res: Option<usize>)
    ensures
        match res {
            Some(i) => {
                &&& i < list@.len()
                &&& first_candidate(list@, accepted@, loaders@) == Some(list@[i as int])
                &&& is_candidate(list@[i as int], accepted@, loaders@)
            },
            None => first_candidate(list@, accepted@, loaders@) is None,
        },
{
    let mut i: usize = 0;
    assert(list@.skip(0) =~= list@);
    while i < list.len()
        invariant
            i <= list.len(),
            first_candidate(list@, accepted@, loaders@) == first_candidate(list@.skip(i as int), accepted@, loaders@),
        decreases list.len() - i,
    {
        let ghost rest = list@.skip(i as int);
        assert(rest[0] == list@[i as int]);
        assert(rest.drop_first() =~= list@.skip(i + 1));
        if version_is_candidate(&list[i], accepted, loaders) {
            return Some(i);
        }
        i = i + 1;
    }
    assert(list@.skip(list.len() as int) =~= Seq::<Version>::empty());
    None
}

/// Whether the Modrinth data says the local copy already is `version`.
pub open spec fn is_local_version(modrinth: ModrinthData, version: Version) -> bool {
    modrinth.version_id matches Some(id) && id@ == version.id@
}

/// What an update check leaves in the data of a file, given the versions
/// Modrinth lists for it: no version makes the file invalid; otherwise it is
/// current, unless the first acceptable version is not the local one, in which
/// case it is outdated and that version's first file is kept for the update.
pub open spec fn data_after_check(data: ModFileData, list: Seq<Version>, accepted: Seq<VersionType>) -> ModFileData {
    if list.len() == 0 {
        ModFileData { state: FileState::Invalid, ..data }
    } else {
        match first_candidate(list, accepted, data.loaders@) {
            Some(version) => {
                let modrinth = data.sources.modrinth.unwrap();
                if is_local_version(modrinth, version) {
                    ModFileData { state: FileState::Current, ..data }
                } else {
                    ModFileData {
                        state: FileState::Outdated,
                        sources: Sources {
                            modrinth: Some(ModrinthData {
                                cdn_file: Some(cdn_file_of(version.files@[0])),
                                ..modrinth
                            }),
                            ..data.sources
                        },
                        ..data
                    }
                }
            },
            None => ModFileData { state: FileState::Current, ..data },
        }
    }
}

/// Checking a file a second time against the same version list changes
/// nothing more: the check leaves the data as the first check left it.
pub proof fn lemma_check_is_repeatable(data: ModFileData, list: Seq<Version>, accepted: Seq<VersionType>)
    requires
        data.sources.modrinth is Some,
    ensures
        data_after_check(data_after_check(data, list, accepted), list, accepted) == data_after_check(data, list, accepted),
{
}

/// Records in the data of a file what the versions Modrinth lists for it mean.
pub fn apply_version_list(mod_data: &mut ModFileData, version_list: &Vec<Version>, accepted: &Vec<VersionType>)
    requires
        old(mod_data).sources.modrinth is Some,
    ensures
        *final(mod_data) == data_after_check(*old(mod_data), version_list@, accepted@),
{
    if version_list.len() == 0 {
        // No version matches the criteria: the mod does not work on this game version.
        mod_data.state = FileState::Invalid;
        return;
    }
    // Current unless an acceptable version other than the local one exists.
    mod_data.state = FileState::Current;
    match find_first_candidate(version_list, accepted, &mod_data.loaders) {
        Some(i) => {
            let version = &version_list[i];
            let is_local = match &mod_data.sources.modrinth {
                Some(modrinth) => match &modrinth.version_id {
                    Some(version_id) => version.id == *version_id,
                    None => false,
                },
                None => false,
            };
            if !is_local {
                let cdn_file = CdnFile::from(version.files[0].clone());
                let old_modrinth = mod_data.sources.modrinth.take();
                match old_modrinth {
                    Some(modrinth) => {
                        mod_data.sources.modrinth = Some(ModrinthData { cdn_file: Some(cdn_file), ..modrinth });
                    },
                    None => {},
                }
                mod_data.state = FileState::Outdated;
            }
        },
        None => {},
    }
}

/// The data of a mod fetched from Modrinth by its project id, before its
/// versions are checked: current, sourced from Modrinth, for one loader.
pub fn create_mod_data(project_id: String, modloader: ModLoader) -> (res: ModFileData)
    ensures
        res.state == FileState::Current,
        res.sourced_from == CurrentSource::Modrinth,
        res.loaders@ == seq![modloader],
        res.sources == (Sources {
            curseforge: None,
            modrinth: Some(ModrinthData { project_id, version_id: None, cdn_file: None }),
        }),
{
    let modrinth = ModrinthData { project_id, version_id: None, cdn_file: None };
    let sources = Sources { curseforge: None, modrinth: Some(modrinth) };
    let mut loaders: Vec<ModLoader> = Vec::new();
    loaders.push(modloader);
    ModFileData { state: FileState::Current, sourced_from: CurrentSource::Modrinth, loaders, sources }
}

/// Whether two files have the same hashes.
pub open spec fn same_hashes(a: Hashes, b: Hashes) -> bool {
    a.sha1@ == b.sha1@ && a.sha512@ == b.sha512@
}

/// Whether file `i` is the last one of the list with its hashes: when the
/// list is turned into a map keyed by hashes, that file is the one kept.
pub open spec fn is_last_with_hashes(files: Seq<ModFile>, i: int) -> bool {
    forall|j: int| i < j < files.len() ==> !same_hashes(#[trigger] files[j].hashes, files[i].hashes)
}

/// Whether file `i` is looked up on Modrinth by its hash: it is the file kept
/// for its hashes and has no Modrinth data yet.
pub open spec fn awaits_lookup(files: Seq<ModFile>, i: int) -> bool {
    is_last_with_hashes(files, i) && files[i].data.sources.modrinth is None
}

/// The SHA-1 hashes asked about for the first `n` files.
pub open spec fn lookup_hashes_upto(files: Seq<ModFile>, n: int) -> Seq<Seq<char>>
    decreases n,
{
    if n <= 0 {
        seq![]
    } else if awaits_lookup(files, n - 1) {
        lookup_hashes_upto(files, n - 1).push(files[n - 1].hashes.sha1@)
    } else {
        lookup_hashes_upto(files, n - 1)
    }
}

/// Whether file `i` is looked up.
fn file_awaits_lookup(files: &Vec<ModFile>, i: usize) -> (res: bool)
    requires
        i < files@.len(),
    ensures
        res == awaits_lookup(files@, i as int),
{
    if files[i].data.sources.modrinth.is_some() {
        return false;
    }
    let n = files.len();
    let mut j: usize = i + 1;
    while j < files.len()
        invariant
            i < j <= files.len(),
            forall|k: int| i < k < j ==> !same_hashes(#[trigger] files@[k].hashes, files@[i as int].hashes),
        decreases files.len() - j,
    {
        if files[j].hashes == files[i].hashes {
            return false;
        }
        j = j + 1;
    }
    true
}

/// The SHA-1 hashes to look files up by on Modrinth: one per file that has
/// no Modrinth data, counting files with the same hashes once.
pub fn lookup_hashes(files: &Vec<ModFile>) -> (res: Vec<String>)
    ensures
        views(res@) == lookup_hashes_upto(files@, files@.len() as int),
{
    let mut res: Vec<String> = Vec::new();
    let mut i: usize = 0;
    while i < files.len()
        invariant
            i <= files.len(),
            views(res@) == lookup_hashes_upto(files@, i as int),
        decreases files.len() - i,
    {
        if file_awaits_lookup(files, i) {
            res.push(files[i].hashes.sha1.clone());
            assert(views(res@) =~= lookup_hashes_upto(files@, i as int).push(files@[i as int].hashes.sha1@));
        }
        i = i + 1;
    }
    res
}

/// The version found for the SHA-1 hash `sha1` (the last one, should several be listed).
pub open spec fn found_version(found: Seq<(String, Version)>, sha1: Seq<char>) -> Option<Version>
    decreases found.len(),
{
    if found.len() == 0 {
        None
    } else if found.last().0@ == sha1 {
        Some(found.last().1)
    } else {
        found_version(found.drop_last(), sha1)
    }
}

/// What a hash lookup leaves of a file: a file that was looked up and found
/// gets the project and version it was found as, and is sourced from Modrinth
/// unless it already had a source.
pub open spec fn file_after_lookup(file: ModFile, looked_up: bool, found: Seq<(String, Version)>) -> ModFile {
    if !looked_up {
        file
    } else {
        match found_version(found, file.hashes.sha1@) {
            Some(version) => ModFile {
                data: ModFileData {
                    sources: Sources {
                        modrinth: Some(ModrinthData {
                            project_id: version.project_id,
                            version_id: Some(version.id),
                            cdn_file: None,
                        }),
                        ..file.data.sources
                    },
                    sourced_from: if file.data.sourced_from == CurrentSource::NoSource {
                        CurrentSource::Modrinth
                    } else {
                        file.data.sourced_from
                    },
                    ..file.data
                },
                ..file
            },
            None => file,
        }
    }
}

/// The index of the version found for `sha1`.
fn find_found_version(found: &Vec<(String, Version)>, sha1: &String) -> (res: Option<usize>)
    ensures
        match res {
            Some(k) => k < found@.len() && found_version(found@, sha1@) == Some(found@[k as int].1),
            None => found_version(found@, sha1@) is None,
        },
{
    let mut k: usize = found.len();
    assert(found@.take(k as int) =~= found@);
    while k > 0
        invariant
            k <= found@.len(),
            found_version(found@, sha1@) == found_version(found@.take(k as int), sha1@),
        decreases k,
    {
        let ghost prefix = found@.take(k as int);
        assert(prefix.drop_last() =~= found@.take(k - 1));
        assert(prefix.last() == found@[k - 1]);
        if found[k - 1].0 == *sha1 {
            return Some(k - 1);
        }
        k = k - 1;
    }
    None
}

/// A lookup by hashes leaves the files that already had Modrinth data as
/// they were.
pub proof fn lemma_lookup_keeps_known_files(files: Seq<ModFile>, found: Seq<(String, Version)>)
    ensures
        forall|i: int| 0 <= i < files.len() && (#[trigger] files[i]).data.sources.modrinth is Some
            ==> file_after_lookup(files[i], awaits_lookup(files, i), found) == files[i],
{
}

/// Records what Modrinth answered to a lookup by hashes (`found` pairs a
/// SHA-1 hash with the version it belongs to) in the files that were looked up.
pub fn apply_found_versions(files: &mut Vec<ModFile>, found: &Vec<(String, Version)>)
    ensures
        final(files)@.len() == old(files)@.len(),
        forall|i: int| 0 <= i < old(files)@.len() ==> #[trigger] final(files)@[i] == file_after_lookup(
            old(files)@[i],
            awaits_lookup(old(files)@, i),
            found@,
        ),
{
    let ghost original = files@;
    let mut looked_up: Vec<bool> = Vec::new();
    let mut i: usize = 0;
    while i < files.len()
        invariant
            i <= files.len(),
            files@ == original,
            looked_up@.len() == i,
            forall|k: int| 0 <= k < i ==> looked_up@[k] == awaits_lookup(original, k),
        decreases files.len() - i,
    {
        let flag = file_awaits_lookup(files, i);
        looked_up.push(flag);
        i = i + 1;
    }
    let mut i: usize = 0;
    while i < files.len()
        invariant
            i <= files.len(),
            files@.len() == original.len(),
            looked_up@.len() == original.len(),
            forall|k: int| 0 <= k < original.len() ==> looked_up@[k] == awaits_lookup(original, k),
            forall|k: int| 0 <= k < i ==> #[trigger] files@[k] == file_after_lookup(original[k], looked_up@[k], found@),
            forall|k: int| i <= k < original.len() ==> #[trigger] files@[k] == original[k],
        decreases files.len() - i,
    {
        if looked_up[i] {
            match find_found_version(found, &files[i].hashes.sha1) {
                Some(k) => {
                    let version = &found[k].1;
                    let modrinth = ModrinthData {
                        project_id: version.project_id.clone(),
                        version_id: Some(version.id.clone()),
                        cdn_file: None,
                    };
                    files[i].data.sources.modrinth = Some(modrinth);
                    if files[i].data.sourced_from == CurrentSource::NoSource {
                        files[i].data.sourced_from = CurrentSource::Modrinth;
                    }
                },
                None => {},
            }
        }
        i = i + 1;
    }
}

} // verus!
