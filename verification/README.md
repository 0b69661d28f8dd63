# xai_grok_pager

Provider setup for the pager, specified and proved: the provider presets, the setup
wizard's state machine, the probe and config write it builds, the merge of a provider
model into `config.toml`, the plan for validating a provider endpoint, default model
resolution, and the log entry buffer.

- `src/` — the library, with its contracts and proofs. `laws.rs` states the properties that span several
  functions; `headers.rs`, `toml_doc.rs` and `text.rs` hold the specifications of the
  outside and standard library calls the library makes.
- `tests/` — tests of the library on concrete values.
- `app/` — the I/O around it: reading and atomically writing `config.toml`, the HTTP
  probes, the serde parse of the baked-in model catalog, the environment lookup for the
  wizard, and the log sender.
