# platformer

Animation playback and movement rules for a 2D platformer character whose
sprites come from Aseprite files, with their behaviour stated and proved in
Verus.

- `src/animation.rs`: animation clips, the per-entity playback cursor, frame
  advancement by elapsed time (idle and walk loop, jump plays once), and the
  laws about playback.
- `src/player.rs`: input and physics decisions: horizontal direction, facing,
  animation state (with the sticky jump), the jump buffer, ground contact.
- `src/loader.rs`: decoding an Aseprite file into RGBA frames and frame
  durations. The Aseprite loader panics on some malformed files (a cel on a
  layer that does not exist, cel pixel data that cannot be decoded or has the
  wrong length); decoding requires bytes on which it does not, named
  `aseprite_decodes_without_panic`, and promises nothing on the others. A file for
  which some buffer the loader would size (the sprite's or a cel's RGBA
  image, or four bytes per byte of the file) does not fit in `usize` is
  refused with `FrameTooLarge` before rendering; on a 64-bit machine that
  never happens.
- `src/aseprite.rs`: the calls into `aseprite-loader`, with their contracts.
- `app/`: the Bevy game: window, map, player entity and the ECS systems that
  read input, time and physics and hand them to the library.

Time is kept in whole nanoseconds throughout the library.
