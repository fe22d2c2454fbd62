# zenwasm

A boundary for running sandboxed WASM modules behind a plugin: the plugin
hosts wasmtime and answers requests on module handles; the host loads the
plugin and reads module memory in place.

- `src/` — the verified library:
  - `types.rs`: boundary version, export names, the `#[repr(C)]` descriptors
    (read from little-endian linear memory) and the status codes;
  - `handles.rs`: the module table (handles are slot indices, freed slots are
    reused smallest first);
  - `values.rs`: how `i64` call arguments become WASM values and back;
  - `wasm.rs`: a loaded module (a store with its instance and bound exports)
    and the trusted wrappers around the wasmtime calls on it;
  - `plugin.rs`: loading modules and every request on a handle;
  - `host.rs`: the host's reading of the plugin's answers;
  - `codec.rs`: the probe/decode conversation as a state machine;
  - `outside.rs`: declarations of the outside types.
- `app/` — the C ABI of the plugin and the `libloading` host loader, which
  perform the calls that the library decides.
- `tests/` — tests of the library, including modules run in wasmtime.
