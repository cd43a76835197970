# pico-racer

Host-side software for the pico-gs SPI GPU: a racing game's GPU driver,
render commands, demo scenes and asset pipeline, with the integer logic
verified by Verus.

## Layout

- `src/` — the verified library.
  - `gpu/` — register map, register packers, the GPU driver (its contracts
    state exactly which register accesses each call hands the transport, over
    the operation history that the `SpiTransport` contract keeps) and laws on
    the packed words.
  - `render/` — render commands and their execution against the driver.
  - `scene/`, `assets/`, `input.rs`, `vehicle.rs`, `camera.rs` — demo
    vertices, the built-in checkerboard texture, teapot triangle indices,
    keycode mapping and small shared enums.
  - `asset/` — identifier sanitizing and collision checks, texture dimension
    validation, OBJ index merging, mesh splitting into 16-bit patches, the
    structure-of-arrays blob layout and what the asset index file lists.
  - `transport.rs`, `hal.rs`, `pc.rs`, `text.rs` — SPI frames, platform
    traits, the desktop host's stand-ins and decimal text.
- `tests/` — tests of the library.
- `app/` — what the library cannot hold: the `asset-prep` command line,
  file I/O, PNG and OBJ decoding, floating-point simulation, transforms,
  lighting and quantization, and the RP2350 pin-level transport.
