# photoproof_desktop

The verified core of the Photoproof desktop shell, written in Verus.

- `src/` is the library. Every function in it carries a contract that Verus
  proves: command admission and shutdown, the cross-window state clock,
  disk and WAL health, the application-health projection and its issue
  list, the startup integrity sweep and the add-root command as decision
  machines, the embedder helper protocol and the per-role helper lifecycle,
  offline backup checks, the per-image journal rows and what undoing a
  retraction states again, settings changes, folder trees, launch
  diagnostics and the smaller bookkeeping around them.
- `tests/` exercises the library from outside.
- `app/` is the unverified shell around it: file-system and process I/O,
  the loops that drive the decision machines, a mutex-and-condition-variable
  wrapper for the command registry, and serde copies of the wire types.

The few calls the library makes into code it does not verify (BLAKE3
hashing, UTF-8 decoding, the platform's absolute-path rule and `Debug`
quoting) each sit behind one small function whose contract states what is
assumed of it.
