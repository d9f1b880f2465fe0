# hydravisor

Hydravisor manages sandboxed virtual machines for AI agents and offers a terminal
interface to them, to local Ollama models and to AWS Bedrock models.

The crate is a verified library with a thin program around it:

- `src/` holds the logic, proved with Verus: the configuration and its defaults, key
  bindings, the two terminal interfaces' state machines (`tui/` and `env_tui.rs`), what
  every widget shows, the list views' filtering and sorting, libvirt domain XML and
  listings, chat requests to Ollama, the policy and SSH settings, the audit ledger's
  place, the command line's tables, and the policy check (its outcome, from what the
  TOML, JSON and JSON-schema crates report).
- `app/` is the program: argument parsing, configuration and policy files, logging, the
  connections to libvirt, Ollama and Bedrock, the event loop and the drawing with
  ratatui. It hands the library plain values and performs what the library decides.
- `tests/` exercises the library on concrete values.
