# link

A device-management client for a NervesHub-style server, written as a Verus
library with a thin daemon around it.

The device keeps a Phoenix-channels websocket open to the server, announces its
firmware metadata, reports health, receives firmware deployments, reboots,
identifies itself, runs support scripts and offers a remote console.

## Layout

- `src/` — the verified library. Every decision of the client lives here with
  its contract: the wire frames and message references (`protocol`), the join
  payload and device metadata (`device`, `config`), the alarm store (`alarms`),
  deployments (`deployment`: file names, progress throttling, the running
  SHA-256 tally and checks of a download,
  fwup arguments, the status sequence), the console state machine (`console`),
  the extensions channel and health reports (`extensions`), script requests
  (`scripts`), reboot and identify policies, shared-secret authentication
  (`auth`), the client's device-info handling (`client`) and the connection
  decisions (`session`).
- `app/` — the daemon: configuration file parsing, the websocket and TLS, the
  pseudo terminal, process execution, the firmware download and the health
  metrics. It performs what the library decides.
- `tests/` — tests of the library on concrete values.
