# flo_state

A lightweight actor library. `Owner` and `Addr` are told apart: when the owner of an actor is
dropped, the actor and every task that was spawned into it are cancelled, whoever still holds an
address.

- `src/` is verified. It holds the handles, the items in which messages travel, and everything that
  is decided: what an actor's task does next (`lifecycle`, `worker`), what a call comes to
  (`call`), which token cancels which (`cancellation`), when a service is created (`registry`,
  `service`), and what a mock does next and which of its handlers takes a message
  (`mock_life`, `mock`). What is believed of tokio,
  tokio-util, futures and std stands in `external`, and in `channel` and `mailbox` for polling a
  channel and closing a queue.
- `app/` waits: it runs the tasks, erases the types of messages, and gives the library's types the
  traits that need another crate.
- `tests/` runs the library on a tokio runtime.
