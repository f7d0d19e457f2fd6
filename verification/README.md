# accentor

A client for an Accentor music server: a daemon that logs in, mirrors the
server's library into a local SQLite database, streams and plays tracks, and
a command line that talks to the daemon over a Unix socket.

The logic is a Verus library under `src/`, proved against its contracts:

- `api`: the server's records, the names of enum values, endpoint URLs, the
  page count header.
- `db`: the SQL that writes, reads and prunes the mirror (`sql`,
  `statements`), the column layout of every record and reading it back
  (`records`), and a model of what the statements do to a table with the
  laws that a record written is read back, children are replaced, and a
  prune drops exactly what a sync did not load again (`model`).
- `sync`, `daemon`, `playback`: the page walk of a sync, the sync state, the
  login checks, the status, and the audio thread's state machine.
- `display`, `text`: what the command line prints.
- `paths`: the daemon's directories, cover cache file names, the clock.

`app/` is the program around it: HTTP requests, SQLite, the socket, audio
output and the command line parser. Invoked under a name ending in `-cli`
it is the command line; otherwise it is the daemon.
