# guardia

Server and service monitoring: agents report a machine's metrics, a hub polls them,
checks HTTP services, raises alerts after a grace period and serves an API with a live
stream, and a terminal viewer shows it all.

- `src/` is the verified library (Verus). It holds the decisions: grace-period
  evaluation and the alert engine, configuration resolution and validation, health
  classification, request authorization, storage batching, service-check judging,
  notification texts and embeds, and the viewer's state machine.
- `app/` is the program around it (`guardia agent`, `guardia hub -f config.json`,
  `guardia viewer`): HTTP, SQLite, the terminal UI, and the loops that feed events to
  the library and carry out what it decides.
- `tests/` exercises the library on concrete inputs.
