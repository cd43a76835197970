pub mod error;
pub mod identifier;
pub mod mesh_patcher;
pub mod obj_converter;
pub mod output_gen;
pub mod png_converter;
pub mod types;
