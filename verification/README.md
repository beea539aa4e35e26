# SynchroSonic core

SynchroSonic streams system audio from one Linux machine to other machines
on the same network. This crate is its core, written in Verus: the
functions in `src/` are verified against their contracts, apart from a few
small trusted wrappers around the `flume` channel and the standard
library's clock and `String::push`, whose contracts Verus takes on trust
and whose doc comments say so.

- `src/` — the library: configuration and its repair, the wire protocol,
  discovery bookkeeping, the receiver's jitter buffer and playback
  scheduler, the sender's target table and session policies, diagnostics,
  crash reports, and the texts and state changes behind the interface.
  Laws that relate several functions are public proof functions (named
  `lemma_*`) next to the code they speak of.
- `tests/` — executable tests against the compiled library.
- `app/` — a command-line program around the library: mDNS, TCP, PipeWire
  processes, files, logging and threads.
