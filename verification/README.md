# blockless

A runtime for WebAssembly applications, with the logic that decides how an
application is configured, linked and run written in Verus and proved
against its contracts.

## Layout

- `src/` — the verified library.
  - `config.rs`, `options.rs`, `cli_config.rs`, `v86config.rs`,
    `wasm_config.rs`: configurations, read from JSON documents and the
    command line, with the tuning options of the engine.
  - `cli.rs`, `checksum.rs`, `exit_code.rs`: command line values, module
    checksums and the exit codes of the runtime.
  - `engine.rs`, `runner.rs`, `mcall.rs`: the plans an engine, a store and
    the guest's streams are built from; link order and entry selection;
    how failures become exit codes; calls between modules.
  - `multiaddr.rs`, `permission.rs`, `path.rs`, `text.rs`, `json.rs`:
    addresses, permissions, paths, text and JSON documents.
  - `drivers/`: the host drivers — sessions by handle, S3, IPFS, HTTP,
    memory, CGI, TCP and sockets.
- `tests/` — tests of the library on concrete values.
- `app/` — the command line program: argument parsing, files, logging and
  the wasmtime embedding, driven by the library's plans.
