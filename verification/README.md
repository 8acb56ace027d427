# zarigani

The decision logic of Zarigani, an actor-based chat assistant, written in
Verus with its contracts proved.

- `src/` is the verified library:
  - `agent/` holds the shared model (channels, conversations, chat messages),
    the actor messages and errors, the channel dispatcher (one route per
    channel kind) and the workflow (incoming message, then completion request,
    then reply to dispatch, then outcome).
  - `providers/` holds the OpenAI-compatible provider's configuration and the
    planning of its requests and reading of its answers (its rig client is built
    here, behind one trusted wrapper), plus an echoing stub.
  - `config/` holds the application configuration and its validation.
  - `channels/` holds what the command line and stub channels show, and the
    command line session that turns typed lines into messages.
  - `text.rs` holds Unicode white space, trimming and decimal numbers.
- `app/` is the program around it: the actix actors, reading the
  configuration file and the terminal, and the calls to the completion API.
- `tests/` exercises the library on concrete values.
