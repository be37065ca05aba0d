# space_recorder

A terminal companion for screen recording: it hosts the user's shell in a
pseudo-terminal and draws the webcam as ASCII art over it, and it prepares
the media tool's capture pipeline (screen, webcam, microphone, effects and a
generated-video overlay).

- `src/` is the library, written in Verus and verified: the ASCII art
  pipeline (grayscale, downsampling, character mapping, dithering, edges,
  braille), the command-line grammar, key handling, the media tool's
  device listings, filters and argument lists, permission probes' readings,
  the video service's replies and retry policy, the video cache's naming
  and clean-up order, and the overlay's transitions.
- `tests/` runs the library on concrete values.
- `app/` is the program around it: the terminal, the pseudo-terminal, the
  camera, processes, HTTP and files, and the parts that compute in floating
  point.

Verify with `verus` on `src/lib.rs`; the outside crates are listed in
`Cargo.toml`.
