# flow_rs

Message pipelines on tokio broadcast channels: a source broadcasts messages,
flows filter them and republish them on their own output channels.

- `src/` — the library, verified with Verus.
  - `base/` — a flow that polls one message source itself (`relay`,
    `poll_source`), its configuration, channel and messages.
  - `flow_core/` — the pipeline flavour: messages, filters, the flow
    configuration and its builder, the receive-loop decisions of a flow
    (`decide`, `handle_event`), the polling-source decisions (`poll_step`)
    and the table of output channels a pipeline hands out
    (`OutputChannels`, a map from flow name to channel).
  - `broadcast.rs`, `shared.rs` — the calls into tokio's broadcast channel
    and std's `Arc` whose behaviour is taken on trust, with what is assumed;
    `SendHandle` wraps a tokio sender with a ghost record of the values
    handed to `send`, those tokio accepted, the capacity its channel was
    opened with and the channel's identity; `ReceiveHandle` carries the
    identity for a receiver. Contracts can then say what a flow sends and
    which channel a receiver belongs to.
- `app/` — the asynchronous runtime around it: the traits with `async`
  methods, and the tasks that wait on sources, triggers and cancellation and
  hand each event to the verified decision functions.
- `tests/` — tests of the library on concrete values.
