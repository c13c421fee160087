# spawned-concurrency

Actors and generic servers in the manner of Erlang, with the parts that decide
verified by Verus.

- `src/` is the library. `tasks/actor_loop.rs` and `tasks/gen_server_loop.rs` say
  what follows each event in a life; `tasks/actor_ref.rs` and
  `tasks/gen_server_handle.rs` hold the handles; `process_table.rs` says who
  learns of whose end; `registry.rs` keeps the names; `tasks/inbox.rs` keeps what
  has come in its order. What holds of all lives and of all tables stands in the
  files whose names end in `_laws.rs`. `channel.rs` holds all that is taken on
  trust of tokio, whose channels carry the messages, and of tokio-util, whose
  tokens stop what runs.
- `app/` runs lives on tokio: it waits for messages, runs the callbacks, and hands
  the library what happened.
- `tests/` runs the library against the real channels and tokens.
