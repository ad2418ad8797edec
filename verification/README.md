# cargo-dist (verified core)

The configuration logic of `dist`, the release tool, written in Verus: the
functions in `src/` carry contracts that Verus proves, apart from a few small
trusted wrappers around calls into other crates and the standard library,
whose contracts state what those calls are documented to do.

- `src/config/`: the config model. `v1/` holds the layered config
  (`TomlLayer` and the per-section layers and resolved configs, with the
  layering rules); `v0.rs` the old `[workspace.metadata.dist]` format, its
  merging and validation; `v0_to_v1.rs` the conversion from the old format;
  `mod.rs` the small value types (install paths, archive formats, job and
  host names) with their parsing and printing.
- `src/init/`: `apply_dist/` turns a config layer into the list of edits
  that write it into the `[dist]` table of a TOML document (with the comment
  of each setting); `interactive.rs` holds the choices `dist init` makes
  from the answers it gets; `setup.rs` where `dist init` writes the config
  (or whether it migrates first).
- `src/platform/`: target support of archives and the runtime conditions
  they put on machines; `src/host.rs` where artifacts are hosted;
  `src/plan.rs` what `dist plan` says about versions; `src/env.rs` the
  Homebrew build environment; `src/generate.rs` the checks before
  generating and the modes to generate; `src/checksum.rs` checksums
  (computed by the `sha2`, `sha3` and `blake2` crates) and checksum files;
  `src/linkage.rs` reading `ldd` and `dpkg` output and placing libraries;
  `src/manifest.rs` the artifact entries of the machine-readable manifest
  (assets ordered by name, install hints, merging entries from other
  machines); `src/help.rs` the CLI manual in markdown, from each
  command's help text.
- `src/keyed.rs`: lists kept in the order of their text keys, each key
  once (the sorted maps config files are read into, such as the CI
  runners and secrets).
- `src/laws.rs`: properties that span several functions (layering,
  merging, round trips of names, orders), each a proof function.
- `tests/`: ordinary Rust tests of the library; the config-writing tests
  apply the edits to a document with `toml_edit`.
- `app/`: a small command-line program that reports the environment
  Homebrew sets up for a project, or the libraries a Linux binary links
  against, running the tools and leaving the reading of their output to
  the library.
