//! Host-side library for the pico-gs SPI GPU racing game: GPU register
//! packing and command submission, render commands, demo scenes and the
//! integer parts of the asset pipeline.

pub mod asset;
pub mod assets;
pub mod camera;
pub mod gpu;
pub mod hal;
pub mod input;
pub mod math;
pub mod pc;
pub mod render;
pub mod scene;
pub mod text;
pub mod transport;
pub mod vehicle;
