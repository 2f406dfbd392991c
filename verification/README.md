# agent_ui

The view of a conversation with an agent, as values: what a thread view shows of its thread, and
how its state changes when the user or the agent does something. Drawing, files, the network and
the clock are left to the caller, which hands in plain values and gets plain values back.

- `src/` is the library, verified with Verus. Trusted are three short wrappers around a bounded
  vector of the `heapless` crate (in `permissions`) and the specification of `String::push` (in
  `text`); every other function is proved. A `..._shows` predicate says
  what a drawn value holds for a given state; the public proof functions state what holds of
  several operations together.
- `app/` is the code around it: what performs the decisions of a view, the protocol's own types,
  the clock and the timers, and measures in floating point.
- `tests/` runs the library on given values.

Some modules to start with: `thread_view` has the state of a view, `model` the conversation,
`sending` and `queue` the way of a message, `tool_call`, `terminal_card` and `subagent` the cards,
`permissions` the answers to requests for permission, `zed_todos` and `todos_surface` the plan,
approvals, monitors and memory, and `numbered_code` the code that comes with line numbers.
