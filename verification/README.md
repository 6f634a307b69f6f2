# egui-winit

The integration between egui and a winit window, with its decisions verified
by Verus.

- `src/` is the verified library: the model of the window's events
  (`window`), of egui's input (`input`), the translations between them
  (`translate`), the state that turns events into egui input and decides
  which events egui consumes (`state`), what to do with egui's platform
  output (`platform_output`), the text handed to egui (`text`), the queries
  of the egui context (`context`), the outside types it carries (`outside`)
  and properties that span several calls (`laws`).
- `app/` wraps the library for winit and egui: it converts winit's events,
  keeps the floating point state (scale, time, screen size), reads and writes
  the clipboard, and acts on the window.
