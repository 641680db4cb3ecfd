//! Values kept on disk as JSON: the generic store, and the mod list cache.

use vstd::prelude::*;

use crate::error::{Error, LibResult};
use crate::mod_file::ModFile;

verus! {

/// Name of the file the mod list cache is kept in (in the mods folder).
pub const CACHE_FILE_NAME: &'static str = "mods.mCubed.json";

/// Name of the file the settings are kept in (in the configuration folder).
pub const SETTINGS_FILE_NAME: &'static str = "settings.json";

/// A value with the path of the JSON file it is kept in.
#[derive(Debug)]
pub struct Storage<T> {
    pub json_filepath: String,
    pub storage: T,
}

impl<T> Storage<T> {
    /// Replaces the value.
    pub fn set(&mut self, new_storage: T)
        ensures
            *final(self) == (Storage { storage: new_storage, json_filepath: old(self).json_filepath }),
    {
        self.storage = new_storage;
    }

    /// The value.
    pub fn get(&self) -> (res: &T)
        ensures
            *res == self.storage,
    {
        &self.storage
    }

    /// The value, to change in place.
    pub fn get_mut(&mut self) -> (res: &mut T)
        ensures
            *res == old(self).storage,
            *final(self) == (Storage { storage: *final(res), json_filepath: old(self).json_filepath }),
    {
        &mut self.storage
    }
}

/// The mod list as it was last saved.
#[derive(Debug)]
pub struct CacheStorage {
    pub storage: Vec<ModFile>,
}

impl Default for CacheStorage {
    fn default() -> (res: Self)
        ensures
            res.storage@.len() == 0,
    {
        CacheStorage { storage: Vec::new() }
    }
}

impl CacheStorage {
    /// Takes in what was read from the cache file: its list on success; a JSON
    /// error is reported as an unreadable cache, other errors as they are.
    pub fn load_list_cache(&mut self, loaded: LibResult<CacheStorage>) -> (res: LibResult<()>)
        ensures
            match loaded {
                Ok(cache) => final(self).storage == cache.storage && res is Ok,
                Err(Error::SerdeError(err)) => *final(self) == *old(self)
                    && res == Err::<(), Error>(Error::FailedToParseEntryCache { err }),
                Err(e) => *final(self) == *old(self) && res == Err::<(), Error>(e),
            },
    {
        match loaded {
            Ok(cache) => {
                self.storage = cache.storage;
                Ok(())
            },
            Err(Error::SerdeError(err)) => Err(Error::FailedToParseEntryCache { err }),
            Err(error) => Err(error),
        }
    }

    /// Replaces the cached list.
    pub fn set_cache(&mut self, new_list: Vec<ModFile>)
        ensures
            final(self).storage == new_list,
    {
        self.storage = new_list;
    }

    /// The cached list.
    pub fn get_cache(&self) -> (res: &Vec<ModFile>)
        ensures
            *res == self.storage,
    {
        &self.storage
    }

    /// The cached list, to change in place.
    pub fn get_cache_mut(&mut self) -> (res: &mut Vec<ModFile>)
        ensures
            *res == old(self).storage,
            final(self).storage == *final(res),
    {
        &mut self.storage
    }
}

} // verus!
