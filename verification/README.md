# cbit

A small build tool for C projects (`cbit new | build [--target <arch>] | run | clean | fmt`),
configured by a `cbit.lua` script.

- `src/` is the verified library: command-line parsing (`cli`), the configuration and how
  `cbit.config` calls change it (`config`, `lua`), dependency scanning and staleness (`deps`),
  source/object naming (`paths`), the precompiled header (`pch`), the argument lists of the
  compiler, linker and formatter (`commands`), the layout of a new project (`project`), and
  character-level text handling (`text`).
- `app/main.rs` is the program: it reads files, the environment and the command line, runs the
  compiler, linker and formatter, and prints.
- `tests/` exercises the library on concrete inputs.
