# winch

The verified core of the `winch` package manager, written in Verus.

- `src/json.rs`: JSON documents read through `serde_json`, and their model.
- `src/manifest.rs`: the fields read from install manifests, package
  records and the package index (build steps, executable directory,
  program name, archive address, author and latest version).
- `src/text.rs`: trimming and the answer to a `(y/n)` question.
- `src/locations.rs`: the addresses of the package index and the paths of
  installed files.
- `src/install.rs`: the decisions of an install, step by step, and the
  choice of the programs to install.
- `src/remove.rs`: the decisions of a removal.
- `src/commands.rs`: the subcommands' arguments and announcements.
- `src/laws.rs`: properties that span these functions.

`app/` holds the command-line program: argument parsing, the network, the
file system and the terminal.
