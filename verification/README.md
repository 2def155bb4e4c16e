# monoloop_loop

The loop of a transaction runtime for language-model agents: it admits
transactions, runs their exchanges and tools, publishes their events in order,
and ends each of them exactly once.

`src/` is the library, verified with Verus. Work that waits (for a provider, a
mailbox, a clock) is written as machines: a step takes what happened and
answers what is to be done next, and its contract says exactly what both are.
The data that travels between steps (encoded prompts, transcripts, tool
results, admission decisions) is computed by verified functions.

`app/` drives the machines with channels, tasks, threads and sockets.

- `runtime`, `subscription`, `registry`, `tools`: the inner loop over canonical
  units; `runtime_laws` says what holds of every run.
- `transaction`: encoders, transcripts, tool dispatch, event queue, admission
  and the actor of a transaction.
- `transaction::lifecycle`: the supervised runtime: admission, ledger, places,
  coordinator, event publisher, finalizer, supervisor and owner.
  `supervisor_trace` proves that every admitted transaction is finalized exactly
  once, in every run.
- `assoc`, `text`, `json`, `identity`, `messages`, `contracts`: the ground they
  stand on.

Four functions are trusted: two of `uuid` (a random identifier, and its text)
and two of `serde_json` (the quoted form of a string, and the compact form of a
JSON text).
