# sync_service

Verified decision logic of a service that keeps a user's local photo
directory and an Immich library in sync.

- `src/` — the library, verified with Verus: the deletion-age policy
  (`policy`), content checksums and their hexadecimal form (`hash`), decimal
  rendering (`text`), event records (`event_log`) and the step functions of
  the file watcher and the deletion watcher (`workers`), with the laws they
  obey stated as proof functions beside them.
- `app/` — the runtime around it: the JSON Lines event log file, reading
  files, the `notify` and `tokio` loops that perform what the step functions
  ask for.
- `tests/` — tests of the library.
