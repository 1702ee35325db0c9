# chio

Chio sets up Solana Pinocchio projects: `chio init <name>` scaffolds a
program with its tests, and `build`, `test`, `deploy`, `keys` and `client`
drive the usual tools.

- `src/` is the library, verified with Verus: the file templates
  (`content::templates`), the text operations they rely on (`text`), the
  decisions of `init` (`project`), the manifest reading and paths
  (`manifest`), the `keys` decisions (`keys`) and the build log shown under
  the spinner (`cargo_log`).
- `app/main.rs` is the command line program: argument parsing, processes,
  files and terminal output around the library.
- `tests/` runs the library on concrete inputs.
