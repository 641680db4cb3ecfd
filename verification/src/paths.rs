//! Where the mod manager keeps its files, as path strings.

use vstd::prelude::*;
use vstd::string::*;

use crate::text::push_char;

verus! {

/// The operating system the paths are for.
#[derive(Clone, Copy, Debug, PartialEq, Eq, Structural)]
pub enum Platform {
    Windows,
    Linux,
    MacOs,
}

/// Whether `c` separates path components on `platform`.
pub open spec fn is_separator(platform: Platform, c: char) -> bool {
    c == '/' || (platform == Platform::Windows && c == '\\')
}

/// The separator put between path components on `platform`.
pub open spec fn separator(platform: Platform) -> char {
    if platform == Platform::Windows { '\\' } else { '/' }
}

/// `component` appended to `base`, with a separator between them unless
/// `base` is empty or already ends with one.
pub open spec fn spec_join_path(platform: Platform, base: Seq<char>, component: Seq<char>) -> Seq<char> {
    if base.len() == 0 {
        component
    } else if is_separator(platform, base.last()) {
        base + component
    } else {
        base.push(separator(platform)) + component
    }
}

/// Appends the path component `component` to the path `base`.
pub fn join_path(platform: Platform, base: &str, component: &str) -> (res: String)
    ensures
        res@ == spec_join_path(platform, base@, component@),
{
    let n = base.unicode_len();
    let mut res = String::from_str(base);
    if n > 0 {
        let last = base.get_char(n - 1);
        let last_is_separator = last == '/' || (platform == Platform::Windows && last == '\\');
        if !last_is_separator {
            let sep = if platform == Platform::Windows { '\\' } else { '/' };
            push_char(&mut res, sep);
        }
    }
    res.append(component);
    res
}

/// The default mods folder of the game on `platform`, for the home folder `home`.
pub open spec fn spec_default_mod_dir(platform: Platform, home: Seq<char>) -> Seq<char> {
    match platform {
        Platform::Windows => spec_join_path(
            platform,
            spec_join_path(
                platform,
                spec_join_path(platform, spec_join_path(platform, home, "AppData"@), "Roaming"@),
                ".minecraft"@,
            ),
            "mods"@,
        ),
        Platform::Linux => spec_join_path(platform, spec_join_path(platform, home, ".minecraft"@), "mods"@),
        Platform::MacOs => spec_join_path(
            platform,
            spec_join_path(
                platform,
                spec_join_path(platform, spec_join_path(platform, home, "Library"@), "ApplicationSupport"@),
                "minecraft"@,
            ),
            "mods"@,
        ),
    }
}

/// The default mods folder of the game: `AppData/Roaming/.minecraft/mods` in
/// the home folder on Windows, `.minecraft/mods` on Linux and
/// `Library/ApplicationSupport/minecraft/mods` on macOS.
pub fn default_mod_dir(platform: Platform, home: &str) -> (res: String)
    ensures
        res@ == spec_default_mod_dir(platform, home@),
{
    match platform {
        Platform::Windows => {
            let p = join_path(platform, home, "AppData");
            let p = join_path(platform, p.as_str(), "Roaming");
            let p = join_path(platform, p.as_str(), ".minecraft");
            join_path(platform, p.as_str(), "mods")
        },
        Platform::Linux => {
            let p = join_path(platform, home, ".minecraft");
            join_path(platform, p.as_str(), "mods")
        },
        Platform::MacOs => {
            let p = join_path(platform, home, "Library");
            let p = join_path(platform, p.as_str(), "ApplicationSupport");
            let p = join_path(platform, p.as_str(), "minecraft");
            join_path(platform, p.as_str(), "mods")
        },
    }
}

/// The folder the settings are kept in, inside the user's configuration folder.
pub fn config_dir(platform: Platform, user_config_dir: &str) -> (res: String)
    ensures
        res@ == spec_join_path(platform, user_config_dir@, "mCubed"@),
{
    join_path(platform, user_config_dir, "mCubed")
}

/// A joined path starts with the base and ends with the component.
pub proof fn lemma_join_path_parts(platform: Platform, base: Seq<char>, component: Seq<char>)
    ensures
        spec_join_path(platform, base, component).len() >= base.len() + component.len(),
        spec_join_path(platform, base, component).take(base.len() as int) == base,
        spec_join_path(platform, base, component).skip(
            spec_join_path(platform, base, component).len() - component.len(),
        ) == component,
{
    let joined = spec_join_path(platform, base, component);
    if base.len() == 0 {
        assert(joined.take(0) =~= base);
        assert(joined.skip(0) =~= component);
    } else if is_separator(platform, base.last()) {
        assert(joined.take(base.len() as int) =~= base);
        assert(joined.skip(joined.len() - component.len()) =~= component);
    } else {
        assert(joined.take(base.len() as int) =~= base);
        assert(joined.skip(joined.len() - component.len()) =~= component);
    }
}

} // verus!
