# jailgun

Jailgun drives ChatGPT browser tabs through a bridge process, captures the
source archives they produce, validates them, and deploys them to a remote
checkout through a cleanup-first safety layer.

## Layout

- `src/` is the library, verified with Verus. Each module states its
  behaviour in `requires`/`ensures` contracts over mathematical models
  (`Seq`, `Map`, `Set`, `Multiset`), and the laws that relate several
  operations are public proof functions.
  - `text`, `digest`, `clock`, `event`, `pathorder`, `strset`: strings,
    UTF-8 lengths, hex and base64, SHA-256, timestamps, event field maps.
  - `tarball`: archive entry checks, validation, changed paths, ranking of
    download candidates.
  - `cleanup`, `deploy`, `deploy_flow`, `deploy_queue`, `shell`, `fake`: the
    remote cleanup and deploy state machines, and the commands and fakes
    they drive.
  - `bridge`, `run`, `drive`: the bridge protocol and the run loop's
    decisions (launch scheduling, completion, deploy planning).
  - `agent`, `server`, `history`, `notify`, `cli`, `jailhard`, `config`: the
    agent interface, dashboard snapshots, run history, notification
    envelopes and command-line resolution.
- `tests/` exercises the library through its public API.
- `app/` is the `jailgun` program: command line, files, processes, SSH,
  HTTP, the JMCP outbox writer, and the JSON forms of the library's types
  (the configuration is read from TOML, or from JSON for a `.json` file).
