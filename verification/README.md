# nagi_core

The rules layer of Nagi, a "quiet time" timer, written in Verus.

- `src/lib.rs` — the session state machine (`NagiTimer`): start, per-frame
  `tick` with the disturbance gauge, `leave`, OS-interruption pause, and the
  `RenderState` shown each frame. Its behaviour is specified by the spec
  functions `tick_step`, `leave_step`, `started` and `snapshot_of` over
  `TimerState`.
- `src/laws.rs` — properties of the state machine proved for all states.
- `src/palette.rs` — the time-of-day colour scheme (keyframe interpolation
  along the shorter hue arc, exact HSL to RGB) and its proved properties.
- `app/lib.rs` — the UniFFI bridge for Android and iOS, converting between
  the platforms' seconds and fractions of a day and the core's integers.

Time is counted in milliseconds, the gauge in millionths, hues in
`1 / HUE_UNITS_PER_DEGREE` degree and colour components in
`1 / COLOR_SCALE`, so all arithmetic is exact.
