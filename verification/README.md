# wikisyncd

WikiSyncer keeps a selective, offline library of Wikipedia pages. This crate holds the
decisions of its single-writer daemon and of its desktop application, written in Rust and
verified with Verus.

## What is verified

Everything under `src/`. No function there opens a file, a socket or a database: it takes
what was observed as plain values and says what to do next, and its contract says exactly
which step that is. The main groups are

- the wire contract between client and daemon: `protocol`, `codec`, `frame`, `client`,
  `upload`, `staging`, `daemon`, `extension`,
- collections and sources: `model`, `collection`, `draft_codec`, `draft_decoder`,
  `administration`, `source`, `creation`, `schedule`, `application`,
- dump bootstraps and payload purges: `dump_bootstrap`, `dump_codec`, `dump_receipt`,
  `purge`, `purge_session`,
- the control plane of a library: `control_plane`, `control`, `network`, `cli`,
- the desktop application: `forms`, `dump_form`, `purge_dialog`, `tasks`, `snapshot`,
  `anchors`, `labels`, `paths`, the `desktop` modules with the state and its messages, and the
  panels that say what is shown.

Properties that span several functions are public proof functions whose names begin with
`law_`. They stand beside the functions they speak of, or in the `*_laws` modules.

## What is trusted

`String::push`, `String::from_utf8`, the debug form of a string and `char::to_uppercase`,
each behind one small item whose comment says what is claimed of it.

## Around the library

`app/` is the program: the daemon process, its command line and, when it is started as
`wikisync-gui`, the desktop window. It performs the steps and hands back what came of them.
`engine.rs` and `convert.rs` are the only files that name the storage, transport,
verification and reader crates.
