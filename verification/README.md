# mcubed

A manager for the mods of a Minecraft installation: it reads the mod archives
in the game's `mods` folder, tells Forge and Fabric mods apart, hashes the
files, looks them up on Modrinth, decides which are outdated and keeps a cache
of what it learned.

- `src/` is the library, verified with Verus: manifest reading, hashing,
  update decisions, the bookkeeping of the mod list and its cache, the
  backend's task list for each message, the downloader's event handling and
  the decisions of the main window. Calls into outside crates (zip, sha1,
  sha2, regex, image, reqwest) stand behind small trusted wrappers whose
  contracts are documented where they are declared.
- `tests/` runs the library on concrete inputs.
- `app/` is the program around it: the window, the backend thread, file and
  network access, and the serde copies of the library's types.
