# generic-session-types

Session types for channels that carry every message of a protocol in one
common representation.

- `src/` is the verified library: the session-type constructors and their
  duals, a model of a protocol's shape in which duality is an involution, the
  `Repr` contract for message representations, typed endpoints `Chan`, and
  for every typed operation the step that decides what goes on the wire or
  what a delivered value means.
- `app/` is the async face: extension traits that await the raw channel
  around those steps (`send`, `recv`, `left`, `right`, `offer`, `choose1..3`,
  `close`), a raw channel over tokio queues with `channel`, the `BoxAnyRepr`
  and `JsonStringRepr` representations, and the `send!`, `recv!`, `close!`
  and `choose_offer!` macros.
- `tests/` drives the verified steps over an in-memory raw channel.
