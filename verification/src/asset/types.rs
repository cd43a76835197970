//! Asset descriptions that carry no floating-point data.
use vstd::prelude::*;

use std::path::PathBuf;

verus! {

/// Configuration for the asset build process (used by build scripts).
#[derive(Debug, Clone)]
pub struct AssetBuildConfig {
    /// Directory containing source assets (textures/*.png, meshes/*.obj).
    pub source_dir: PathBuf,
    /// Output directory for generated files (typically OUT_DIR/assets).
    pub out_dir: PathBuf,
    /// Maximum vertices per mesh patch (default: 16).
    pub patch_size: usize,
    /// Maximum indices per mesh patch (default: 32).
    pub index_limit: usize,
}

/// Metadata about a generated asset file, returned by the build process.
#[derive(Debug, Clone)]
pub struct GeneratedAsset {
    /// Rust module name for this asset.
    pub module_name: String,
    /// Rust identifier prefix (uppercase).
    pub identifier: String,
    /// Path to the generated .rs file (relative to out_dir).
    pub rs_path: PathBuf,
    /// Source file that produced this asset (for rerun-if-changed).
    pub source_path: PathBuf,
}

/// Converted PNG texture in RGBA8888 format.
#[derive(Debug, Clone)]
pub struct TextureAsset {
    /// Source filename (for metadata).
    pub source: PathBuf,
    /// Texture width (power-of-two, 8-1024).
    pub width: u32,
    /// Texture height (power-of-two, 8-1024).
    pub height: u32,
    /// RGBA8888 pixel data (row-major).
    pub data: Vec<u8>,
    /// Rust identifier (sanitized from filename).
    pub identifier: String,
}

impl TextureAsset {
    /// Size of the pixel data in bytes.
    pub fn size_bytes(&self) -> (n: usize)
        ensures
            n == self.data@.len(),
    {
        self.data.len()
    }
}

} // verus!
