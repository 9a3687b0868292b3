# rsstoat

The decision logic of the rsStoat desktop client (a Tauri shell around the
Stoat web chat), written in Verus with contracts and proofs.

- `src/` — the verified library: the stored configuration and its defaults
  (`config`), window events, saving and restoring (`window`), start-up and the
  command line (`launch`), the unread badge (`badge`), the tray menu (`tray`),
  the rich presence worker (`presence`), the web client's commands
  (`commands`), text helpers (`text`) and the cross-cutting properties
  (`laws`).
- `tests/` — tests of the library on concrete values.
- `app/` — the Tauri shell itself: windows, tray, file I/O, threads and the
  Discord connection, which carry out what the library decides.
