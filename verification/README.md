# sheldon

A fast, configurable, shell plugin manager, written as a verified library
and a thin command line program.

- `src/` is the library, verified with Verus: reading and normalizing the
  plugin configuration, resolving the directories a plugin's source lives in,
  the decisions of locking (Git steps, downloads, local directories, file
  patterns), assembling and checking the lock, cleaning, generating the shell
  script, editing the configuration file, and resolving the command line.
  Calls into outside crates (`url`, `upon`, `indexmap`, `toml_edit`, `which`,
  `atty`) stand behind small trusted wrappers whose contracts are stated in
  their doc comments.
- `app/` is the `sheldon` program: argument parsing with `clap`, reading and
  writing files with `serde` and `toml`, Git with `git2`, downloads with
  `curl`, globbing with `globwalk`, and the file lock with `fmutex`. It hands
  plain values to the library and performs what the library decides.
- `tests/` runs the library on concrete inputs.
