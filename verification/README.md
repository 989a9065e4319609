# capybara_commute

The rules of Capybara Commute, a small game in which a capybara floats down a
river and catches falling passengers (ducklings, frogs, butterflies) on its
back without tipping over, written in Verus and proved.

- `src/passenger.rs` – passenger kinds, their weights (in tenths) and points.
- `src/game.rs` – the score keeping: landing passengers on numbered slots,
  the end-of-game decision (toppled, or eight riders sink the capybara),
  restarting.
- `src/layout.rs` – how riders are stacked and centred on the capybara, and
  where the scenery starts.
- `src/spawn.rs` – the 50/35/15 lottery that picks the next passenger.
- `src/controls.rs` – steering from the held keys.
- `src/hud.rs` – the score read-outs.
- `app/main.rs` – the Bevy front end: rendering, input, the floating-point
  tilt physics and movement, and the per-frame systems.
