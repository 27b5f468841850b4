# Ramflux TUI client

A keyboard-driven terminal client for a local Ramflux daemon: conversations,
messages, object transfers, contacts and devices, groups, and pending
approvals, over the SDK local bus.

The client is a state machine verified with Verus. Each input, bus event or
daemon response changes the view model and yields a task: the steps of an
operation in order, each either a change of the view model or a piece of
outside work (a bus request, base64url coding, surface rendering, a file read,
the clock). The front end performs the outside work and hands back what came
of it, one step at a time.

- `src/`: the verified library.
  - `state.rs`: the view model, panels, inputs and keys.
  - `json.rs`, `bus.rs`, `requests.rs`: JSON values, bus requests and their bodies.
  - `parsing.rs`: daemon responses read into rows.
  - `task.rs`: tasks, their steps, effects and outcomes.
  - `app.rs`: the client controller; what every input, event and response does.
  - `render.rs`: the text of each panel.
  - `text.rs`, `a2ui.rs`: text helpers and approval surfaces.
  - `laws.rs`: properties that hold across operations.
- `app/`: the `rf-tui` program: terminal, SDK bus, and the outside work of tasks.
- `tests/`: scenarios run against a mock daemon.
