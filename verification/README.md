# scut

The Strategic Command Utility Tool shares the saves of 2v2 play-by-email
games of Strategic Command (World at War) through a Dropbox folder: it
downloads the saves a player needs to play their turn and uploads the saves
they made.

This crate is the tool's library, written in Verus: every function in `src/`
carries a contract that Verus proves.

- `save`, `turn`, `grammar`, `parse`, `names`: saves, turns, and the names of
  save files, with the law that a save's name reads back as that save.
- `query`, `index`: searching saves, with the laws of negation and joining.
- `path`, `file_system`, `index::folder`, `storage`: paths (separated by `/`
  or `\`), a simulated file system, folders of saves and the storages built
  on them.
- `prediction`, `predict`: what to download and upload, and when the
  autosave can be shared.
- `config`, `interaction`, `error`: the settings and their texts, the
  decisions of the conversations with the user, and error messages.
- `cli`: what the `download`, `upload` and `config` commands decide.

`app/` is the command line program around the library: reading folders,
running 7-Zip, the configuration file and the terminal.
