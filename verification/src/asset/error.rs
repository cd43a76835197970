//! Errors of the asset pipeline.
use vstd::prelude::*;

use std::path::PathBuf;

verus! {

#[verifier::external_type_specification]
#[verifier::external_body]
pub struct ExPathBuf(std::path::PathBuf);

#[verifier::external_type_specification]
#[verifier::external_body]
pub struct ExIoError(std::io::Error);

/// `PathBuf::clone` (std): a copy of the path. Paths are opaque here, so
/// nothing is claimed of the copy.
pub assume_specification[ <std::path::PathBuf as Clone>::clone ](p: &PathBuf) -> PathBuf;

/// Errors that can occur during asset conversion.
#[derive(Debug)]
pub enum AssetError {
    /// I/O error reading or writing files.
    Io(std::io::Error),
    /// Failed to decode a PNG image.
    ImageDecode { path: PathBuf, message: String },
    /// Failed to parse an OBJ mesh file.
    ObjParse { path: PathBuf, message: String },
    /// Input validation failed (dimensions, empty mesh, etc.).
    Validation(String),
    /// Two different source files produce the same Rust identifier.
    IdentifierCollision { identifier: String, path_a: PathBuf, path_b: PathBuf },
    /// Error generating output files.
    CodeGen(String),
}

} // verus!
