# tinty

A Base16 and Base24 theming manager for Tinted Theming templates, with its
logic proved correct by Verus.

- `src/` is the verified library: configuration validation and rendering,
  scheme-repository merging, theme cycling, the `apply` pipeline's decisions
  (scheme lookup, theme files, hook commands, marker splicing), the Git
  clone/update state machine, template hooks, and the parsing and routing of
  the gallery server. Every public function states what it returns in its
  `ensures`; the `law_*` proof functions state the properties that span
  several calls.
- `src/outside.rs` holds the trusted wrappers around the outside crates the
  library calls (`url`, `shell-words`, `regex`, `hex_color`, `home`, `dirs`,
  `rand`) and around `str::to_uppercase`; each names what it claims of the
  crate. The one other trusted item, `push_char` in `src/text.rs`, wraps
  `String::push`.
- `app/` is the `tinty` command: argument parsing, files, processes and
  printing, around the library's decisions.
- `tests/` runs the library on concrete values.
