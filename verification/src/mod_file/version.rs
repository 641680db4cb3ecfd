//! Picking a plain version number out of a mod's free-form version string.

use vstd::prelude::*;

use super::ModEntry;

verus! {

/// The pattern of a version number: two or three dot-separated numbers.
pub const VERSION_NUMBER_PATTERN: &'static str = "[0-9]+\\.[0-9]+(\\.[0-9]+)?";

/// The non-overlapping matches, left to right, of the regular expression
/// `pattern` in `text`, or `None` when `pattern` is not a valid expression.
pub uninterp spec fn spec_regex_find_all(pattern: Seq<char>, text: Seq<char>) -> Option<Seq<Seq<char>>>;

/// `regex::Regex::new(pattern)`, then `find_iter(text)`. Claimed: compiling
/// succeeds or fails as a function of the pattern, and the list of matched
/// texts is a function of the pattern and the text.
#[verifier::external_body]
fn regex_find_all(pattern: &str, text: &str) -> (res: Option<Vec<String>>)
    ensures
        match res {
            Some(found) => spec_regex_find_all(pattern@, text@) == Some(found@.map_values(|s: String| s@)),
            None => spec_regex_find_all(pattern@, text@) is None,
        },
{
    let compiled = regex::Regex::new(pattern).ok()?;
    Some(compiled.find_iter(text).map(|m| m.as_str().to_string()).collect())
}

/// The version-number matches in `text` (none, should the pattern not compile).
pub open spec fn spec_version_number_matches(text: Seq<char>) -> Seq<Seq<char>> {
    match spec_regex_find_all(VERSION_NUMBER_PATTERN@, text) {
        Some(found) => found,
        None => seq![],
    }
}

/// The version-number matches in `text`.
fn version_number_matches(text: &str) -> (res: Vec<String>)
    ensures
        views(res@) == spec_version_number_matches(text@),
{
    match regex_find_all(VERSION_NUMBER_PATTERN, text) {
        Some(found) => found,
        None => Vec::new(),
    }
}

/// The first of `matches` that is not one of `game_versions`.
pub open spec fn first_non_game_version(
    matches: Seq<Seq<char>>,
    game_versions: Seq<Seq<char>>,
) -> Option<Seq<char>>
    decreases matches.len(),
{
    if matches.len() == 0 {
        None
    } else if !game_versions.contains(matches[0]) {
        Some(matches[0])
    } else {
        first_non_game_version(matches.drop_first(), game_versions)
    }
}

/// The normalized version for a version string whose version-number matches
/// are `matches`: the whole string when nothing matches; else the first match
/// that is not a game version, when game versions are given and one is not;
/// else the first match.
pub open spec fn normalized_choice(
    version: Seq<char>,
    matches: Seq<Seq<char>>,
    game_versions: Option<Seq<Seq<char>>>,
) -> Seq<char> {
    if matches.len() == 0 {
        version
    } else {
        match game_versions {
            Some(gv) => match first_non_game_version(matches, gv) {
                Some(m) => m,
                None => matches[0],
            },
            None => matches[0],
        }
    }
}

/// The views of a list of strings.
pub open spec fn views(v: Seq<String>) -> Seq<Seq<char>> {
    v.map_values(|s: String| s@)
}

/// Whether `name` is one of `list`.
fn list_contains(list: &Vec<String>, name: &String) -> (res: bool)
    ensures
        res == views(list@).contains(name@),
{
    let mut i: usize = 0;
    while i < list.len()
        invariant
            i <= list.len(),
            forall|j: int| 0 <= j < i ==> list@[j]@ != name@,
        decreases list.len() - i,
    {
        if list[i] == *name {
            assert(views(list@)[i as int] == name@);
            return true;
        }
        i = i + 1;
    }
    false
}

/// Chooses the normalized version of `version` among its version-number
/// `matches` (see `normalized_choice`).
pub fn select_normalized_version(
    version: &String,
    matches: &Vec<String>,
    game_versions: Option<&Vec<String>>,
) -> (res: String)
    ensures
        res@ == normalized_choice(version@, views(matches@), optional_views(game_versions)),
{
    if matches.len() == 0 {
        return version.clone();
    }
    match game_versions {
        Some(gv) => {
            assert(views(matches@).skip(0) =~= views(matches@));
            let mut i: usize = 0;
            while i < matches.len()
                invariant
                    0 < matches.len(),
                    game_versions == Some(gv),
                    i <= matches.len(),
                    first_non_game_version(views(matches@), views(gv@))
                        == first_non_game_version(views(matches@).skip(i as int), views(gv@)),
                decreases matches.len() - i,
            {
                let ghost rest = views(matches@).skip(i as int);
                assert(rest[0] == matches@[i as int]@);
                assert(rest.drop_first() =~= views(matches@).skip(i + 1));
                if !list_contains(gv, &matches[i]) {
                    return matches[i].clone();
                }
                i = i + 1;
            }
            assert(views(matches@).skip(matches.len() as int) =~= Seq::<Seq<char>>::empty());
            matches[0].clone()
        },
        None => matches[0].clone(),
    }
}

/// What `get_normalized_version` answers and leaves in the entry.
pub open spec fn normalized_after(entry: ModEntry, game_versions: Option<Seq<Seq<char>>>) -> Seq<char> {
    match entry.normalized_version {
        Some(v) => v@,
        None => normalized_choice(entry.version@, spec_version_number_matches(entry.version@), game_versions),
    }
}

/// The views of an optional list of game versions.
pub open spec fn optional_views(game_versions: Option<&Vec<String>>) -> Option<Seq<Seq<char>>> {
    match game_versions {
        Some(gv) => Some(views(gv@)),
        None => None,
    }
}

impl ModEntry {
    /// The normalized version of the entry, computed (and kept) on the first
    /// call, returned as kept on later calls.
    pub fn get_normalized_version(&mut self, game_versions: Option<&Vec<String>>) -> (res: String)
        ensures
            res@ == normalized_after(*old(self), optional_views(game_versions)),
            final(self).normalized_version matches Some(v) && v@ == res@,
            *final(self) == (ModEntry { normalized_version: final(self).normalized_version, ..*old(self) }),
    {
        if self.normalized_version.is_none() {
            self.create_normalized_version(game_versions);
        }
        match &self.normalized_version {
            Some(v) => v.clone(),
            None => String::new(),
        }
    }

    /// Computes the normalized version of the entry and keeps it: the first
    /// version-number match in `version` that is not one of the game versions,
    /// else the first match, else the whole version string. Version strings
    /// follow no standard, so this is a best effort.
    pub fn create_normalized_version(&mut self, game_versions: Option<&Vec<String>>)
        ensures
            final(self).normalized_version matches Some(v) && v@ == normalized_choice(
                old(self).version@,
                spec_version_number_matches(old(self).version@),
                optional_views(game_versions),
            ),
            *final(self) == (ModEntry { normalized_version: final(self).normalized_version, ..*old(self) }),
    {
        let matches = version_number_matches(self.version.as_str());
        let normalized_version = select_normalized_version(&self.version, &matches, game_versions);
        self.normalized_version = Some(normalized_version);
    }
}

/// Asking an entry for its normalized version twice gives the same answer the
/// second time, whatever game versions are passed then, and leaves the entry
/// as the first call left it.
pub proof fn lemma_normalized_version_is_kept(
    entry: ModEntry,
    first: Option<Seq<Seq<char>>>,
    second: Option<Seq<Seq<char>>>,
    kept: String,
)
    requires
        kept@ == normalized_after(entry, first),
    ensures
        normalized_after(ModEntry { normalized_version: Some(kept), ..entry }, second)
            == normalized_after(entry, first),
{
}

} // verus!
