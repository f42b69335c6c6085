# shinzou

The input, event-loop and scene-ordering logic of a small Vulkan renderer, written in Verus
with its behaviour stated in contracts and proved.

Layout:

- `src/input/` — input types and their event codes, the input manager (key, mouse and gamepad
  state over time, hold detection, input mode), action bindings per context, and the first,
  simpler input tracker.
- `src/event_loop.rs`, `src/window.rs` — what the main loop does with each event, and the
  window's focus.
- `src/renderer/` — scene entities, the draw order of renderables, the plan of bind and draw
  commands for a frame, uniform-buffer padding, frame slots, and a registry of named resources.
- `src/clock.rs` — the frame timer and the clock readings the input manager uses.
- `app/` — the program around the library: the window, gamepad polling, analog (floating-point)
  values, asset loading and the Vulkan-side helpers.
- `tests/` — tests of the library on concrete values.
