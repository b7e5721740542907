# spine_session

The Spine session layer of a Codex host, with its contracts proved.

- `src/session_runtime.rs`: a session's model context, kept in step with the
  shared Spine coordinator. Appends, live compactions and replays call the
  coordinator once, through a closure the host supplies, with the inputs their
  contracts name, and settle from its answer; a refused operation keeps the
  context and latches a durability fault with the reason it reports.
- `src/config.rs`: SDK configuration sources; resolution (saved snapshot,
  else sources, else the current SDK, then the Spine features, then the tool
  catalog built from the resulting SDK); restoring the snapshot of the latest
  sampling boundary on resume or fork.
- `src/fork_context.rs`: the history a forked thread starts from: a projected
  fork checks for canonical history and asks for the canonical replay it
  needs; a checkpointed fork appends a checkpoint of the child's own history.
- `src/resume_history.rs`: which reads a resume makes, how their errors are
  reported, and what their answers amount to.
- `src/items.rs`, `src/context.rs`, `src/error.rs`: the records moved around.

`app/` holds the host side: it reaches the coordinator, the SDK and the thread
store through traits the host implements, and hands their answers to the
library. `tests/` exercises the library on concrete values.
