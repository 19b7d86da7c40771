# league_record

A League of Legends game recorder whose decisions are verified with Verus.

- `src/` is the verified library: the settings file format, the game
  listener's state machine, the recordings' metadata, the cleanup rules for
  old and oversized recordings, the local file server's request handling, the
  folder watcher's notifications, the tray menu and the in-game markers.
- `tests/` runs the library on concrete values.
- `app/` is the program around it: file system, network, the client's APIs
  and the video capture.
