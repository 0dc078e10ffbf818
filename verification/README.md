# ratatube

The verified core of a terminal YouTube Music player that runs as a daemon
with attached terminal clients.

`src/` is the library, written in Verus and proved against its contracts:

- media and queue model (`media`, `queue`), the client's mirror of the
  daemon's state (`mirror`) and the wire vocabulary (`wire`);
- client action routing (`client_route`), the daemon's handling of client
  commands, pending searches, player restarts and the sleep timer
  (`daemon`), and the client's handling of replies and form submissions
  (`attached`);
- action admission against owned background operations (`operations`,
  `dispatch`), follow-up work after a track starts (`followup`);
- keyboard and mouse routing (`keymap`, `input`, `mouse`), overlay layout
  (`layout`);
- playlists: refresh diffing (`refresh`), JSON import staging
  (`json_import`), selection and editing (`playlists`), channel paging
  and nested channel navigation (`channel`);
- the shared track table's widths and truncation (`track_table`), text
  helpers (`text`), artwork decoding limits (`thumbnail`);
- socket, child-process, session and document rules (`server`, `child`,
  `session`, `paths`, `schema`), external command outcomes (`external`),
  the player's status under mpv events (`player`).

`app/` is ordinary Rust around it: terminal events, the control socket,
documents on disk, task handles, child processes and ratatui glue.
`tests/` exercises the library on concrete values.
