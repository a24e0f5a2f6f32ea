# tidepool_gvm

A Go version manager (`gvm`): it installs Go releases into a versions
directory, switches the active version through a `current` link, uninstalls,
lists and describes versions.

The library in `src/` holds the decisions and is verified with Verus: paths and
archive names, the configuration and the creation of its directories, the
install, switch and uninstall operations (installation as a state machine
that the program drives, which checks each archive against its published
SHA-256 checksum), the environment of the active version (`GOROOT`,
`GOPATH`, `PATH`), quiet output, the
split of a download into ranges, sizes and durations as text, the
installation planner with its task order and undo steps, the validation
checks, and the lines each command shows. `app/` is the command-line program
around it: argument parsing, the file system, HTTP downloads, archive
extraction and the terminal. `tests/` exercises the library.

Layout of `src/`:

- `text`, `units`, `paths`, `platform`: strings, numbers, sizes, paths, names
- `checksum`: the published SHA-256 digest and the archive's own
- `config`, `error`, `go`, `install`, `commands`, `cli`: the version manager
- `downloader`: range planning and response checks
- `progress/`: plans (`planner`, `schedule`, `tasks`), their execution
  (`executor`, `coordinator`, `simple_install`) and validation (`validator`)
- `ui/`, `ui_flat`, `progress_flat`: icons, messages, layouts and choices
