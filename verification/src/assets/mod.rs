pub mod teapot;
pub mod textures;
