# runseal

Runseal establishes one profile (env + argv + symlink) for one command
process tree:

```bash
runseal : <command> [args...]           # default profile
runseal :release <command> [args...]    # named profile
runseal :release @forgejo issue list    # native tool inside a profile
runseal @tool github issue create ...   # atomic tool command
runseal profile [name]                  # inspect a profile
runseal resolve resource://x local://y  # print resolved URIs
```

## Layout

- `src/` is the library, verified with Verus. Every decision is a function
  with a `requires`/`ensures` contract over mathematical models (`Seq`,
  `Map`, spec functions):
  - `model/` — profile names, configuration discovery, profile URIs
    (`resource://`, `local://`) and the native Forgejo call as a state
    machine;
  - `injections/` — the environment patch, environment operations, and the
    symlink lifecycle machine (validate, create in order, run, remove in
    reverse);
  - `runtime.rs` — planes of the command line, argv injection, routing to an
    external command or a native tool, and the child's environment changes;
  - `tool/` — request planning and reply reading of the Forgejo, GitHub and
    Cloudflare tools, and progressive help;
  - `text.rs`, `table.rs`, `json.rs`, `reply.rs` — strings, a sorted map,
    JSON values and HTTP replies as the rules read them.
- Calls into other crates (`path-absolutize`, `serde_json`, `sha2`,
  `shellexpand`, `zeroize`, `reqwest`) stand behind small trusted wrappers
  whose contracts say what the crate documents.
- `app/` is the program: command line, files, processes, symlinks and HTTP.
  It performs what the library decides and hands results back. The
  `@forgejo-admin` calls are read and checked by the library but refused by
  the program: they need the server's private token issuer, which it does
  not have.
- `tests/` exercise the library on concrete values.
