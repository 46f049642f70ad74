# stellaris

A navigable, procedurally generated galaxy scene (raylib), split in two:

- `src/` — the verified library: spectral classes and their colours and
  sizes, the order of IEEE 754 binary32 values read from their encodings,
  the fixed schedule of deep-sky events, nebula and dust shading draws, the
  camera's speed tiers and pitch limit, the renderer's level-of-detail and
  black-hole enlargement decisions, shooting-star fading, accretion-disk
  colours and the two quality presets.
- `app/` — the program: window, input, drawing, texture files, and the
  floating-point geometry of the generators, calling the library for every
  decision above.
- `tests/` — tests of the library, among them comparisons of the
  encoding-based comparisons with native `f32` ones and of the library's
  draws with direct draws from the same seeded generator.
