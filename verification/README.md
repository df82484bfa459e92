# renderer

Frame-level state of a small real-time renderer, verified with Verus.

- `src/axis.rs`: input axes are single-precision values kept as their
  IEEE-754 binary32 encoding; the sign tests the engine needs are stated on
  the encoding.
- `src/input.rs`, `src/keys.rs`: banks of button and key axes with the queue
  of releases that the end of the frame clears; mouse and keyboard state and
  one accessor set per named key.
- `src/engine_state.rs`: frame counter, screen and quality settings with their
  change flag, the pointer position in viewport coordinates, and the keyboard
  shortcuts of the debug overlay.
- `src/uniform.rs`: the description of a bind group of uniform buffers.
- `src/stub_demo.rs`: the demo used when no real one is built in.
- `src/laws.rs`: properties of the input banks across operations.

`app/` holds the floating-point clock, the GPU calls (wgpu) and the glue that
converts float axis values for the library.
