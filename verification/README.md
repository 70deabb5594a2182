# sequencer_engine

The musical-time core of a MIDI drum step sequencer, verified with Verus.

- `src/` — the library: the session model, the Roll and Vary step algorithms,
  clipboards and one-deep undo, the pattern scheduler, the per-16th tick and
  MIDI dispatch math, the drop-oldest MIDI ring and command and event
  channels, the host-render event queue,
  the command interpreter, the editor's mirror of engine state, and what the
  editor's gestures, sheets and popovers decide (drawing them is left out). Every
  function carries a contract; laws that relate several functions (the mirror
  follows the engine, undo takes back a tool, a saved session loads back, the
  ring keeps the newest messages, …) are proof functions.
- `tests/` — scenarios run against the compiled library.
- `app/` — the parts outside the verified core: postcard byte formats for
  commands, events and saved sessions; the floating-point settings (tempo,
  swing, humanize, speed ratio, strength) turned into the integers the library
  reads; the worker and tick threads; host-driven block rendering; and the
  egui editor, which draws the mirror and sends what the library's gesture
  and sheet decisions return.
