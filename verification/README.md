# nospacekey_tip

The logic of a Japanese input method for the Windows text services framework, verified with Verus.

- `src/` is the library. It holds every decision: what a composition, a conversion, a prediction, a
  receipt or a registration does next, given what the host, the engine or the clock reported. It
  never calls the host. Where the host has to be called, a function says what to call, and another
  takes what came back.
- `app/` carries the decisions out, in the order that they have to be carried out in: threads, files,
  processes, the registry, the screen, and edit sessions of the framework. The key handler, the
  candidate window and the engine's protocol are parts of their own; they come in through the
  traits `Host`, `EngineHost`, `EngineClient`, `ReceiptClient`, `ReadingInput` and `MonitorWindow`.
  What needs Windows is compiled there only.
- `tests/` runs the library on concrete values.

Objects of the host are known to the library by numbers, and moments by milliseconds.
