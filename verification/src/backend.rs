//! The bookkeeping the backend does on the list of mod files.

use vstd::prelude::*;

use crate::cdn_file::CdnFile;
use crate::error::{Error, LibResult};
use crate::mod_file::{CurrentSource, FileState, ModFile, ModFileData};

verus! {

/// The first file of `from` with the SHA-1 hash `sha1`.
pub open spec fn first_with_sha1(from: Seq<ModFile>, sha1: Seq<char>) -> Option<ModFile>
    decreases from.len(),
{
    if from.len() == 0 {
        None
    } else if from[0].hashes.sha1@ == sha1 {
        Some(from[0])
    } else {
        first_with_sha1(from.drop_first(), sha1)
    }
}

/// What `transfer_list_data` makes of `file`: when `from` has a file with the
/// same SHA-1 hash, the first such file's source and sources are taken over,
/// and its state too when `keep_state` holds (else the file counts as current).
pub open spec fn transferred(file: ModFile, from: Seq<ModFile>, keep_state: bool) -> ModFile {
    match first_with_sha1(from, file.hashes.sha1@) {
        Some(src) => ModFile {
            data: ModFileData {
                sourced_from: src.data.sourced_from,
                sources: src.data.sources,
                state: if keep_state { src.data.state } else { FileState::Current },
                ..file.data
            },
            ..file
        },
        None => file,
    }
}

/// The first file with a hash is the one at the first index holding it, and
/// there is none when no index holds it.
proof fn lemma_first_with_sha1_at(from: Seq<ModFile>, sha1: Seq<char>, k: int)
    requires
        0 <= k <= from.len(),
        forall|j: int| 0 <= j < k ==> (#[trigger] from[j]).hashes.sha1@ != sha1,
        k < from.len() ==> from[k].hashes.sha1@ == sha1,
    ensures
        k < from.len() ==> first_with_sha1(from, sha1) == Some(from[k]),
        k == from.len() ==> first_with_sha1(from, sha1) is None,
    decreases k,
{
    if k > 0 {
        let rest = from.drop_first();
        assert forall|j: int| 0 <= j < k - 1 implies (#[trigger] rest[j]).hashes.sha1@ != sha1 by {
            assert(rest[j] == from[j + 1]);
        }
        if k < from.len() {
            assert(rest[k - 1] == from[k]);
        }
        lemma_first_with_sha1_at(rest, sha1, k - 1);
        assert(from[0].hashes.sha1@ != sha1);
    }
}

/// A transfer gives a file the source, the sources and (when asked; else
/// "current") the state of the first file of the other list with the same
/// SHA-1 hash, whatever that source is, and keeps everything else of the
/// file. A file whose hash the other list lacks is left as it was.
pub proof fn lemma_transfer_takes_first_match(file: ModFile, from: Seq<ModFile>, keep_state: bool, k: int)
    requires
        0 <= k <= from.len(),
        forall|j: int| 0 <= j < k ==> (#[trigger] from[j]).hashes.sha1@ != file.hashes.sha1@,
        k < from.len() ==> from[k].hashes.sha1@ == file.hashes.sha1@,
    ensures
        k < from.len() ==> {
            let t = transferred(file, from, keep_state);
            &&& t.data.sourced_from == from[k].data.sourced_from
            &&& t.data.sources == from[k].data.sources
            &&& t.data.state == (if keep_state { from[k].data.state } else { FileState::Current })
            &&& t.data.loaders == file.data.loaders
            &&& t.hashes == file.hashes
            &&& t.path == file.path
            &&& t.entries == file.entries
        },
        k == from.len() ==> transferred(file, from, keep_state) == file,
{
    lemma_first_with_sha1_at(from, file.hashes.sha1@, k);
}

/// The index in `from` of the first file with the SHA-1 hash `sha1`.
fn find_first_with_sha1(from: &[ModFile], sha1: &String) -> (res: Option<usize>)
    ensures
        match res {
            Some(k) => k < from@.len() && first_with_sha1(from@, sha1@) == Some(from@[k as int]),
            None => first_with_sha1(from@, sha1@) is None,
        },
{
    let mut k: usize = 0;
    assert(from@.skip(0) =~= from@);
    while k < from.len()
        invariant
            k <= from@.len(),
            first_with_sha1(from@, sha1@) == first_with_sha1(from@.skip(k as int), sha1@),
        decreases from.len() - k,
    {
        let ghost rest = from@.skip(k as int);
        assert(rest[0] == from@[k as int]);
        assert(rest.drop_first() =~= from@.skip(k + 1));
        if from[k].hashes.sha1 == *sha1 {
            return Some(k);
        }
        k = k + 1;
    }
    assert(from@.skip(from.len() as int) =~= Seq::<ModFile>::empty());
    None
}

/// Carries the important data (source, sources and, when asked, state) of the
/// files of `from_list` over to the files of `to_list` with the same SHA-1 hash.
pub fn transfer_list_data(from_list: &[ModFile], to_list: &mut Vec<ModFile>, keep_state: bool)
    ensures
        final(to_list)@.len() == old(to_list)@.len(),
        forall|i: int| 0 <= i < old(to_list)@.len() ==> #[trigger] final(to_list)@[i] == transferred(
            old(to_list)@[i],
            from_list@,
            keep_state,
        ),
{
    let ghost original = to_list@;
    let mut i: usize = 0;
    while i < to_list.len()
        invariant
            i <= to_list@.len(),
            to_list@.len() == original.len(),
            forall|k: int| 0 <= k < i ==> #[trigger] to_list@[k] == transferred(original[k], from_list@, keep_state),
            forall|k: int| i <= k < original.len() ==> #[trigger] to_list@[k] == original[k],
        decreases to_list.len() - i,
    {
        match find_first_with_sha1(from_list, &to_list[i].hashes.sha1) {
            Some(k) => {
                let src = &from_list[k];
                to_list[i].data.sourced_from = src.data.sourced_from;
                to_list[i].data.sources = src.data.sources.clone();
                if keep_state {
                    to_list[i].data.state = src.data.state;
                } else {
                    to_list[i].data.state = FileState::Current;
                }
            },
            None => {},
        }
        i = i + 1;
    }
}

/// Transferring from the same list a second time changes nothing.
pub proof fn lemma_transfer_idempotent(file: ModFile, from: Seq<ModFile>, keep_state: bool)
    ensures
        transferred(transferred(file, from, keep_state), from, keep_state) == transferred(file, from, keep_state),
{
}

/// Carries the data of `from_list` over to the current mod list, states included.
pub fn transfer_list_data_to_current(mod_list: &mut Vec<ModFile>, from_list: &[ModFile])
    ensures
        final(mod_list)@.len() == old(mod_list)@.len(),
        forall|i: int| 0 <= i < old(mod_list)@.len() ==> #[trigger] final(mod_list)@[i] == transferred(
            old(mod_list)@[i],
            from_list@,
            true,
        ),
{
    transfer_list_data(from_list, mod_list, true);
}

/// Whether some file of `list` has the SHA-1 hash `sha1`.
pub open spec fn has_sha1(list: Seq<ModFile>, sha1: Seq<char>) -> bool {
    exists|k: int| 0 <= k < list.len() && #[trigger] list[k].hashes.sha1@ == sha1
}

/// The files of `list` whose SHA-1 hash is not in `cache`, in order.
pub open spec fn new_to_cache(list: Seq<ModFile>, cache: Seq<ModFile>) -> Seq<ModFile>
    decreases list.len(),
{
    if list.len() == 0 {
        seq![]
    } else if has_sha1(cache, list.last().hashes.sha1@) {
        new_to_cache(list.drop_last(), cache)
    } else {
        new_to_cache(list.drop_last(), cache).push(list.last())
    }
}

/// The cache after the current mod list was saved into it.
pub open spec fn merged_cache(cache: Seq<ModFile>, mod_list: Seq<ModFile>) -> Seq<ModFile> {
    cache.map_values(|f: ModFile| transferred(f, mod_list, false)) + new_to_cache(mod_list, cache)
}

/// Whether some file of `list` has the SHA-1 hash `sha1`.
fn list_has_sha1(list: &Vec<ModFile>, sha1: &String) -> (res: bool)
    ensures
        res == has_sha1(list@, sha1@),
{
    let mut k: usize = 0;
    while k < list.len()
        invariant
            k <= list@.len(),
            forall|j: int| 0 <= j < k ==> list@[j].hashes.sha1@ != sha1@,
        decreases list.len() - k,
    {
        if list[k].hashes.sha1 == *sha1 {
            return true;
        }
        k = k + 1;
    }
    false
}

/// Saves the current mod list into the cache: the cached files take over the
/// data of the listed files with the same SHA-1 hash (as current files), then
/// the listed files whose hash the cache does not know are appended.
pub fn merge_into_cache(cache: &mut Vec<ModFile>, mod_list: Vec<ModFile>)
    ensures
        final(cache)@ == merged_cache(old(cache)@, mod_list@),
{
    let ghost list = mod_list@;
    transfer_list_data(mod_list.as_slice(), cache, false);
    let ghost transferred_cache = cache@;
    assert(transferred_cache =~= old(cache)@.map_values(|f: ModFile| transferred(f, list, false)));
    let mut new_files: Vec<ModFile> = Vec::new();
    let count = mod_list.len();
    let mut rest = mod_list;
    let mut i: usize = 0;
    assert(rest@ =~= list.skip(0));
    // Hashes are kept by the transfer, so the cache knows the same hashes as before.
    assert forall|s: Seq<char>| has_sha1(transferred_cache, s) <==> has_sha1(old(cache)@, s) by {
        if has_sha1(transferred_cache, s) {
            let k = choose|k: int| 0 <= k < transferred_cache.len() && #[trigger] transferred_cache[k].hashes.sha1@ == s;
            assert(old(cache)@[k].hashes.sha1@ == s);
        }
        if has_sha1(old(cache)@, s) {
            let k = choose|k: int| 0 <= k < old(cache)@.len() && #[trigger] old(cache)@[k].hashes.sha1@ == s;
            assert(transferred_cache[k].hashes.sha1@ == s);
        }
    }
    while rest.len() > 0
        invariant
            i + rest@.len() == list.len(),
            list.len() == count,
            rest@ == list.skip(i as int),
            cache@ == transferred_cache,
            forall|s: Seq<char>| has_sha1(transferred_cache, s) <==> has_sha1(old(cache)@, s),
            new_files@ == new_to_cache(list.take(i as int), old(cache)@),
        decreases rest@.len(),
    {
        let file = rest.remove(0);
        assert(file == list[i as int]);
        assert(list.take(i + 1).drop_last() =~= list.take(i as int));
        assert(list.take(i + 1).last() == file);
        if !list_has_sha1(cache, &file.hashes.sha1) {
            new_files.push(file);
        }
        assert(rest@ =~= list.skip(i + 1));
        i = i + 1;
    }
    assert(list.take(i as int) =~= list);
    cache.append(&mut new_files);
}

/// Every file of the mod list has a file with its SHA-1 hash in the cache
/// once the list is saved into it, and the cache keeps its earlier files
/// (with their hashes) in front.
pub proof fn lemma_merge_covers_list(cache: Seq<ModFile>, mod_list: Seq<ModFile>)
    ensures
        forall|i: int| 0 <= i < mod_list.len() ==> has_sha1(merged_cache(cache, mod_list), #[trigger] mod_list[i].hashes.sha1@),
        merged_cache(cache, mod_list).len() >= cache.len(),
        forall|i: int| 0 <= i < cache.len() ==> #[trigger] merged_cache(cache, mod_list)[i].hashes == cache[i].hashes,
    decreases mod_list.len(),
{
    let merged = merged_cache(cache, mod_list);
    let front = cache.map_values(|f: ModFile| transferred(f, mod_list, false));
    lemma_new_to_cache(mod_list, cache);
    assert forall|i: int| 0 <= i < mod_list.len() implies has_sha1(merged, #[trigger] mod_list[i].hashes.sha1@) by {
        let s = mod_list[i].hashes.sha1@;
        if has_sha1(cache, s) {
            let k = choose|k: int| 0 <= k < cache.len() && #[trigger] cache[k].hashes.sha1@ == s;
            assert(merged[k] == front[k]);
            assert(merged[k].hashes.sha1@ == s);
        } else {
            let tail = new_to_cache(mod_list, cache);
            assert(tail.contains(mod_list[i]));
            let m = choose|m: int| 0 <= m < tail.len() && tail[m] == mod_list[i];
            assert(merged[cache.len() + m] == tail[m]);
        }
    }
    assert forall|i: int| 0 <= i < cache.len() implies #[trigger] merged[i].hashes == cache[i].hashes by {
        assert(merged[i] == front[i]);
    }
}

/// The files of the list that the cache does not know are all in `new_to_cache`.
proof fn lemma_new_to_cache(list: Seq<ModFile>, cache: Seq<ModFile>)
    ensures
        forall|i: int| 0 <= i < list.len() && !has_sha1(cache, #[trigger] list[i].hashes.sha1@)
            ==> new_to_cache(list, cache).contains(list[i]),
    decreases list.len(),
{
    if list.len() > 0 {
        let prefix = list.drop_last();
        lemma_new_to_cache(prefix, cache);
        assert forall|i: int| 0 <= i < list.len() && !has_sha1(cache, #[trigger] list[i].hashes.sha1@)
            implies new_to_cache(list, cache).contains(list[i]) by {
            let rest = new_to_cache(prefix, cache);
            if i < list.len() - 1 {
                assert(prefix[i] == list[i]);
                assert(!has_sha1(cache, prefix[i].hashes.sha1@));
                assert(rest.contains(prefix[i]));
                let m = choose|m: int| 0 <= m < rest.len() && rest[m] == list[i];
                assert(new_to_cache(list, cache)[m] == list[i]);
            } else {
                assert(new_to_cache(list, cache) == rest.push(list.last()));
                assert(new_to_cache(list, cache)[rest.len() as int] == list[i]);
            }
        }
    }
}

/// Records the outcome of parsing one file of the mods folder: a parsed file
/// joins the list; an error clears the list and is handed back, which ends
/// the scan.
pub fn push_scan_result(mod_list: &mut Vec<ModFile>, result: LibResult<ModFile>) -> (res: Option<Error>)
    ensures
        match result {
            Ok(file) => final(mod_list)@ == old(mod_list)@.push(file) && res is None,
            Err(e) => final(mod_list)@.len() == 0 && res == Some(e),
        },
{
    match result {
        Ok(entry) => {
            mod_list.push(entry);
            None
        },
        Err(error) => {
            mod_list.clear();
            Some(error)
        },
    }
}

/// The files of `list` that are not at the path `path`, in order.
pub open spec fn without_path(list: Seq<ModFile>, path: Seq<char>) -> Seq<ModFile>
    decreases list.len(),
{
    if list.len() == 0 {
        seq![]
    } else if list.last().path@ == path {
        without_path(list.drop_last(), path)
    } else {
        without_path(list.drop_last(), path).push(list.last())
    }
}

/// After a delete, no file of the list is at the deleted path, and every file
/// that was elsewhere is kept, in order.
pub proof fn lemma_without_path(list: Seq<ModFile>, gone: Seq<char>)
    ensures
        forall|i: int| 0 <= i < without_path(list, gone).len() ==> #[trigger] without_path(list, gone)[i].path@ != gone,
        forall|i: int| 0 <= i < without_path(list, gone).len() ==> list.contains(#[trigger] without_path(list, gone)[i]),
        forall|i: int| 0 <= i < list.len() && #[trigger] list[i].path@ != gone ==> without_path(list, gone).contains(list[i]),
    decreases list.len(),
{
    if list.len() > 0 {
        let prefix = list.drop_last();
        lemma_without_path(prefix, gone);
        let rest = without_path(prefix, gone);
        let all = without_path(list, gone);
        assert forall|i: int| 0 <= i < all.len() implies list.contains(#[trigger] all[i]) by {
            if i < rest.len() {
                assert(all[i] == rest[i]);
                assert(prefix.contains(rest[i]));
                let k = choose|k: int| 0 <= k < prefix.len() && prefix[k] == rest[i];
                assert(list[k] == rest[i]);
            } else {
                assert(all[i] == list.last());
                assert(list[list.len() - 1] == all[i]);
            }
        }
        assert forall|i: int| 0 <= i < list.len() && #[trigger] list[i].path@ != gone implies all.contains(list[i]) by {
            if i < list.len() - 1 {
                assert(prefix[i] == list[i]);
                assert(prefix[i].path@ != gone);
                assert(rest.contains(prefix[i]));
                let m = choose|m: int| 0 <= m < rest.len() && rest[m] == list[i];
                assert(all[m] == list[i]);
            } else {
                assert(all[rest.len() as int] == list[i]);
            }
        }
    }
}

/// Drops the files at the path `path` from the list (after the file was deleted).
pub fn remove_mod_by_path(mod_list: &mut Vec<ModFile>, path: &str)
    ensures
        final(mod_list)@ == without_path(old(mod_list)@, path@),
{
    let ghost list = mod_list@;
    let count = mod_list.len();
    let mut kept: Vec<ModFile> = Vec::new();
    let mut rest: Vec<ModFile> = Vec::new();
    std::mem::swap(&mut rest, mod_list);
    let mut i: usize = 0;
    assert(rest@ =~= list.skip(0));
    while rest.len() > 0
        invariant
            i + rest@.len() == list.len(),
            list.len() == count,
            rest@ == list.skip(i as int),
            kept@ == without_path(list.take(i as int), path@),
        decreases rest@.len(),
    {
        let file = rest.remove(0);
        assert(file == list[i as int]);
        assert(list.take(i + 1).drop_last() =~= list.take(i as int));
        assert(list.take(i + 1).last() == file);
        if !crate::text::str_eq(file.path.as_str(), path) {
            kept.push(file);
        }
        assert(rest@ =~= list.skip(i + 1));
        i = i + 1;
    }
    assert(list.take(i as int) =~= list);
    *mod_list = kept;
}

/// The file to download to update a file sourced from Modrinth.
pub open spec fn spec_cdn_file(file_data: ModFileData) -> Option<CdnFile> {
    match file_data.sources.modrinth {
        Some(modrinth) => modrinth.cdn_file,
        None => None,
    }
}

/// The file to download to update a file sourced from Modrinth. Only files
/// sourced from Modrinth can be updated this way.
pub fn get_cdn_file(file_data: &ModFileData) -> (res: Option<CdnFile>)
    requires
        file_data.sourced_from == CurrentSource::Modrinth,
    ensures
        res == spec_cdn_file(*file_data),
{
    match &file_data.sources.modrinth {
        Some(modrinth_data) => match &modrinth_data.cdn_file {
            Some(file) => Some(file.clone()),
            None => None,
        },
        None => None,
    }
}

/// Keeps, in a freshly downloaded file, where the file it replaces came from.
pub fn inherit_source_data(new_file: &mut ModFile, file_data: &ModFileData)
    ensures
        *final(new_file) == (ModFile {
            data: ModFileData {
                sources: file_data.sources,
                sourced_from: file_data.sourced_from,
                ..old(new_file).data
            },
            ..*old(new_file)
        }),
{
    new_file.data.sources = file_data.sources.clone();
    new_file.data.sourced_from = file_data.sourced_from;
}

/// The part of `name` after its last `.` (all of `name` when it has none).
pub open spec fn extension(name: Seq<char>) -> Seq<char>
    decreases name.len(),
{
    if name.len() == 0 {
        name
    } else if name.last() == '.' {
        seq![]
    } else {
        extension(name.drop_last()).push(name.last())
    }
}

/// The extension is what follows the last `.` of a name: it holds no `.`,
/// it ends the name, and it is preceded by a `.` when the name has one (it
/// is the whole name otherwise).
pub proof fn lemma_extension_after_last_dot(name: Seq<char>)
    ensures
        !extension(name).contains('.'),
        extension(name).len() <= name.len(),
        name.skip(name.len() - extension(name).len()) == extension(name),
        name.contains('.') ==> extension(name).len() < name.len()
            && name[name.len() - extension(name).len() - 1] == '.',
        !name.contains('.') ==> extension(name) == name,
    decreases name.len(),
{
    if name.len() > 0 {
        let prefix = name.drop_last();
        lemma_extension_after_last_dot(prefix);
        let e = extension(name);
        let pe = extension(prefix);
        if name.last() == '.' {
            assert(e =~= Seq::<char>::empty());
            assert(name.skip(name.len() as int) =~= e);
            assert(name.contains('.')) by { assert(name[name.len() - 1] == '.'); }
        } else {
            assert(e == pe.push(name.last()));
            assert(!e.contains('.')) by {
                if e.contains('.') {
                    let k = choose|k: int| 0 <= k < e.len() && e[k] == '.';
                    if k < pe.len() {
                        assert(pe[k] == '.');
                    }
                }
            }
            assert(name.skip(name.len() - e.len()) =~= prefix.skip(prefix.len() - pe.len()).push(name.last()));
            if name.contains('.') {
                let k = choose|k: int| 0 <= k < name.len() && name[k] == '.';
                assert(k < name.len() - 1);
                assert(prefix[k] == '.');
                assert(prefix.contains('.'));
                assert(name[name.len() - e.len() - 1] == prefix[prefix.len() - pe.len() - 1]);
            } else {
                assert forall|k: int| 0 <= k < prefix.len() implies prefix[k] != '.' by {
                    assert(name[k] == prefix[k]);
                }
                assert(!prefix.contains('.'));
                assert(e =~= name);
            }
        }
    }
}

/// A name that ends in `.jar` has the extension `jar`, whatever comes
/// before (version numbers with dots included).
pub proof fn lemma_jar_name_is_relevant(stem: Seq<char>)
    ensures
        extension(stem + seq!['.', 'j', 'a', 'r']) == seq!['j', 'a', 'r'],
        is_jar_extension(extension(stem + seq!['.', 'j', 'a', 'r'])),
{
    let name = stem + seq!['.', 'j', 'a', 'r'];
    let n = name.len();
    assert(name.drop_last() =~= stem + seq!['.', 'j', 'a']);
    assert(name.drop_last().drop_last() =~= stem + seq!['.', 'j']);
    assert(name.drop_last().drop_last().drop_last() =~= stem + seq!['.']);
    assert((stem + seq!['.']).last() == '.');
    assert(extension(stem + seq!['.']) =~= Seq::<char>::empty());
    assert(extension(stem + seq!['.', 'j']) =~= seq!['j']);
    assert(extension(stem + seq!['.', 'j', 'a']) =~= seq!['j', 'a']);
    assert(extension(name) =~= seq!['j', 'a', 'r']);
}

/// Whether `ext` is `jar` in any mix of upper and lower case.
pub open spec fn is_jar_extension(ext: Seq<char>) -> bool {
    &&& ext.len() == 3
    &&& (ext[0] == 'j' || ext[0] == 'J')
    &&& (ext[1] == 'a' || ext[1] == 'A')
    &&& (ext[2] == 'r' || ext[2] == 'R')
}

/// Where the extension of `chars` starts: after the last `.` (at 0 when
/// there is none).
fn extension_start(chars: &Vec<char>) -> (start: usize)
    ensures
        start <= chars@.len(),
        extension(chars@) == chars@.skip(start as int),
{
    let mut start: usize = chars.len();
    assert(chars@.take(start as int) =~= chars@);
    assert(chars@.skip(start as int) =~= Seq::<char>::empty());
    assert(extension(chars@.take(start as int)) + chars@.skip(start as int) =~= extension(chars@));
    // Walk back to the last dot.
    while start > 0 && chars[start - 1] != '.'
        invariant
            start <= chars@.len(),
            extension(chars@) == extension(chars@.take(start as int)) + chars@.skip(start as int),
        decreases start,
    {
        let ghost prefix = chars@.take(start as int);
        assert(prefix.drop_last() =~= chars@.take(start - 1));
        assert(chars@.skip(start - 1) =~= seq![chars@[start - 1]] + chars@.skip(start as int));
        assert(extension(prefix) == extension(prefix.drop_last()).push(prefix.last()));
        start = start - 1;
    }
    proof {
        let prefix = chars@.take(start as int);
        if start == 0 {
            assert(prefix =~= Seq::<char>::empty());
        } else {
            assert(prefix.last() == '.');
        }
        assert(extension(prefix) =~= Seq::<char>::empty());
        assert(Seq::<char>::empty() + chars@.skip(start as int) =~= chars@.skip(start as int));
    }
    start
}

/// Whether a directory entry is a mod the game loads: a file (not a folder)
/// whose name ends in `.jar`, in any case.
pub fn is_relevant_file(is_file: bool, file_name: &str) -> (res: bool)
    ensures
        res == (is_file && is_jar_extension(extension(file_name@))),
{
    let chars = crate::text::chars_of(file_name);
    let start = extension_start(&chars);
    if !is_file || chars.len() - start != 3 {
        return false;
    }
    let c0 = chars[start];
    let c1 = chars[start + 1];
    let c2 = chars[start + 2];
    let ghost ext = chars@.skip(start as int);
    assert(ext[0] == c0 && ext[1] == c1 && ext[2] == c2);
    (c0 == 'j' || c0 == 'J') && (c1 == 'a' || c1 == 'A') && (c2 == 'r' || c2 == 'R')
}

} // verus!
