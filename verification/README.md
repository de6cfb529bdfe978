# ghidra_cli

The verified core of `ghidra-cli`, a command-line front end to the Ghidra
reverse-engineering suite, and of `ilspy`, its companion for .NET
assemblies. Every function under `src/` carries a contract that Verus
proves; calls into outside crates (goblin, md5, regex, atty) and a few
std functions go through small trusted wrappers whose contracts say what
those crates document.

Layout:

- `src/decomp/`: the byte protocols spoken with Ghidra's native
  decompiler (frame markers, nibble encoding, PackedEncode records), the
  ELF loader that serves its memory reads, and the callback that answers
  them. Round-trip laws for each encoding are proved next to it.
- `src/daemon/`: how CLI commands become bridge calls, what the daemon
  does with each IPC request and on each client connection, the command
  queue, the result cache with its time-to-live, and the daemon's file
  names. `src/command_text.rs` gives the text of a command that keys the
  cache.
- `src/annotate/`: PCode canonicalization and fingerprinting, and the
  decisions of the annotation export and apply passes.
- `src/format/`, `src/filter/`, `src/config.rs`, `src/cli.rs`: output
  formats, the filter expression language (lexer and parser, proved
  against its grammar), filter field lookup and string operators,
  configuration and the command-line model of the Ghidra front end.
- `src/ilspy/`: PE and .NET detection, type and method selection, output
  rendering and the `doctor` report of the `ilspy` tool.
- `tests/`: tests run against the compiled library.
- `app/`: the `ilspy` program (argument parsing, file access, process
  probes, JSON and table drawing) and the I/O around the Ghidra side
  (configuration file, daemon files, filter evaluation over
  floating-point numbers). It is ordinary Rust and is not verified.
