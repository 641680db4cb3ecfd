//! The user's settings.

use vstd::prelude::*;

use crate::modrinth::structures::VersionType;

verus! {

/// The settings of the mod manager, changed builder-style.
#[derive(Clone, Debug)]
pub struct SettingsBuilder {
    /// The size of the images the icon of a mod will be resized to.
    pub icon_resize_size: u32,
    /// The minimum release type when fetching from Modrinth.
    pub modrinth_version_type: VersionType,
    /// The path to the "mods" folder.
    pub mod_folder_path: String,
}

impl SettingsBuilder {
    /// The default settings for a mods folder: icons resized to 128 pixels,
    /// release versions only.
    pub fn new(mod_folder_path: String) -> (res: Self)
        ensures
            res == (SettingsBuilder { icon_resize_size: 128, modrinth_version_type: VersionType::Release, mod_folder_path }),
    {
        SettingsBuilder { icon_resize_size: 128, modrinth_version_type: VersionType::Release, mod_folder_path }
    }

    /// Sets the icon resize size.
    pub fn icon_resize_size(self, size: u32) -> (res: Self)
        ensures
            res == (SettingsBuilder { icon_resize_size: size, ..self }),
    {
        let mut s = self;
        s.icon_resize_size = size;
        s
    }

    /// Sets the Modrinth release type.
    pub fn modrinth_version_type(self, version_type: VersionType) -> (res: Self)
        ensures
            res == (SettingsBuilder { modrinth_version_type: version_type, ..self }),
    {
        let mut s = self;
        s.modrinth_version_type = version_type;
        s
    }

    /// Sets the path to the mods folder.
    pub fn mod_folder_path(self, path: String) -> (res: Self)
        ensures
            res == (SettingsBuilder { mod_folder_path: path, ..self }),
    {
        let mut s = self;
        s.mod_folder_path = path;
        s
    }
}

/// Setting two different settings gives the same result in either order.
pub proof fn lemma_setters_commute(settings: SettingsBuilder, size: u32, version_type: VersionType, path: String)
    ensures
        (SettingsBuilder { modrinth_version_type: version_type, ..(SettingsBuilder { icon_resize_size: size, ..settings }) })
            == (SettingsBuilder { icon_resize_size: size, ..(SettingsBuilder { modrinth_version_type: version_type, ..settings }) }),
        (SettingsBuilder { mod_folder_path: path, ..(SettingsBuilder { icon_resize_size: size, ..settings }) })
            == (SettingsBuilder { icon_resize_size: size, ..(SettingsBuilder { mod_folder_path: path, ..settings }) }),
{
}

} // verus!
