# NEXRAD Workbench

The interface of a workbench for weather radar data: which panels, dialogs and
overlays are shown, what they say, and what the transport, the map and the queue
do when they are used.

- `src/` is the library. It is written in Verus: every function states what it
  returns or changes, and Verus proves it. Numbers are integers throughout: times
  in milliseconds from the epoch, places in millionths of a degree, points of the
  screen in thousandths. Figures that are shown are rounded as the binary fractions
  in which they are held; `src/binary.rs` says how.
- `tests/` runs the library on concrete values.
- `app/` is the program around it: drawing with `egui`, the clock and the time
  zone, floating-point geometry, and the graphics card.

Calendar dates are those of `chrono`, and translucent colours those of `egui`;
`src/calendar.rs`, `src/colors.rs`, `src/canvas_interaction.rs` and `src/text.rs`
say what is taken from there, and from the standard library, without proof.
