# language_model

The rules by which completions of language models are handled: token usage, the errors of model
providers and their messages, the text of a completion as its events come in, and the interface
that models and their providers implement.

- `src/` is the library. Its functions state what they do, and Verus proves it; what is left to
  other crates and to the implementors of the traits is marked where it stands.
  - `usage.rs`: token usage and its arithmetic
  - `event.rs`, `ids.rs`: completion events and the names they use
  - `anthropic.rs`, `error.rs`: errors, what they stand for and what they say
  - `stream.rs`: the text of a completion, event by event
  - `model.rs`: what models, tools and providers implement
  - `text.rs`: writing numbers and joining texts
  - `outside.rs`: what is relied on from other crates without proof
- `app/` runs the library on futures and streams, serializes its types, gives its errors the
  standard traits and hooks it into an application.
- `tests/` runs the library on examples.
