# simulacra

A library for running agents in a virtual world: what an agent may do, what it has left to
spend, the filesystem that it sees, the memory and the artifacts that it keeps, the tools
that it calls and the workflows that it takes part in. The library is written in Verus. Its
functions are proved against their contracts, all but the small ones that call into other
crates or the standard library. What is believed of those is said at the end of this page.

## Layout

- `src/text.rs`, `src/text_map.rs`, `src/path.rs`: texts, maps keyed by texts and paths of
  the virtual filesystem.
- `src/json.rs`, `src/coding.rs`, `src/form.rs`, `src/record.rs`: JSON values, how the types
  of the library are written as JSON and read back, the order in which their members are
  printed, and what is said of JSON that cannot be read. Most of
  the forms stand beside their types, the others in `src/types/forms/` and in
  `src/workflow/forms.rs`.
- `src/types/`: the vocabulary. Capability tokens (`capability.rs`) with their laws
  (`attenuation.rs`), budgets, memory paths and tenants, messages, tools, providers, the
  journal, activity events, artifacts and the `VirtualFs` trait.
- `src/vfs/`: filesystems and the layers over them. The filesystem in memory, the overlay,
  the read-only guard, `/proc`, `/svc`, the mailbox, the long-term memory and the layer that
  announces changes. `mount.rs`, `mount_copy.rs` and `mount_run.rs` decide what of the host
  is mounted, and in which order.
- `src/wasm.rs`: the sandbox and the fuel of WASM tools.
- `src/workflow/`: scripts, runs, their state in a filesystem, and the calls of a run.
- `tests/`: the library from outside.
- `app/`: what touches the host. Directories, the WASM engine, the script engine, tasks,
  watchers, spans and counters.

## Reading the contracts

Each type has a view, and each operation a spec function over views that says what it gives.
A filesystem states its operations as relations: `fs.reads(path, out)` says that reading
`path` may give `out`, and `fs.writes(path, data, after, out)` that writing may lead to
`after`. Layers state theirs over those of the filesystem inside.

What holds of several operations together is stated as a public proof function with a name
that says it, such as `narrowing_takes_nothing_new`, `read_gives_back_the_write` or
`only_successes_are_reused`.

Calls into other crates and into parts of the standard library stand behind small functions
marked `external_body`. Their contracts are believed, and the comment above each says what
is believed of which function.
