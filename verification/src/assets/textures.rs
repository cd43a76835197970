//! Demo texture data.
use vstd::prelude::*;

use crate::render::commands::{TextureData, TextureInfo, TextureSource};

verus! {

/// Texture metadata and pixel data (two RGBA8888 pixels per 64-bit dword,
/// the left pixel in \[31:0\]).
pub struct Texture {
    pub width: u16,
    pub height: u16,
    pub width_log2: u8,
    pub height_log2: u8,
    pub data: Vec<u64>,
}

/// The values of a stored texture.
pub open spec fn texture_value(t: Texture) -> TextureData {
    TextureData {
        data: t.data@,
        width: t.width,
        height: t.height,
        width_log2: t.width_log2,
        height_log2: t.height_log2,
    }
}

/// Texture ID of the checkerboard.
pub const TEX_ID_CHECKERBOARD: u8 = 0;

/// Opaque white in RGBA8888.
pub const CHECKER_LIGHT: u32 = 0xFF_FF_FF_FF;

/// Opaque dark gray in RGBA8888.
pub const CHECKER_DARK: u32 = 0xFF_40_40_40;

/// The colour of pixel (x, y) of the 64x64 checkerboard: 8x8 blocks, white
/// where the block coordinates sum to an even number, dark gray elsewhere.
pub open spec fn checker_pixel(x: int, y: int) -> u32 {
    if ((x / 8) + (y / 8)) % 2 == 0 {
        CHECKER_LIGHT
    } else {
        CHECKER_DARK
    }
}

/// Dword `i` of the checkerboard: pixels (2k, y) and (2k + 1, y) of row
/// y = i / 32, k = i % 32, the left one in the low half.
pub open spec fn checker_dword(i: int) -> u64 {
    let y = i / 32;
    let x = 2 * (i % 32);
    (checker_pixel(x, y) as u64) | ((checker_pixel(x + 1, y) as u64) << 32u64)
}

fn checker_color(block_x: usize, block_y: usize) -> (c: u32)
    requires
        block_x < 16,
        block_y < 16,
    ensures
        c == (if (block_x + block_y) % 2 == 0 { CHECKER_LIGHT } else { CHECKER_DARK }),
{
    if (block_x + block_y) % 2 == 0 {
        CHECKER_LIGHT
    } else {
        CHECKER_DARK
    }
}

/// Generate the 64x64 checkerboard (2048 dwords, row-major).
pub fn checkerboard_64_data() -> (data: Vec<u64>)
    ensures
        data@.len() == 2048,
        forall|i: int| 0 <= i < 2048 ==> #[trigger] data@[i] == checker_dword(i),
{
    let mut data: Vec<u64> = Vec::new();
    let mut y: usize = 0;
    while y < 64
        invariant
            y <= 64,
            data@.len() == y * 32,
            forall|i: int| 0 <= i < data@.len() ==> #[trigger] data@[i] == checker_dword(i),
        decreases 64 - y,
    {
        let mut x: usize = 0;
        while x < 64
            invariant
                y < 64,
                x <= 64,
                x % 2 == 0,
                data@.len() == y * 32 + x / 2,
                forall|i: int| 0 <= i < data@.len() ==> #[trigger] data@[i] == checker_dword(i),
            decreases 64 - x,
        {
            let c0 = checker_color(x / 8, y / 8);
            let c1 = checker_color((x + 1) / 8, y / 8);
            let ghost i = (y * 32 + x / 2) as int;
            assert(i / 32 == y && 2 * (i % 32) == x) by (nonlinear_arith)
                requires
                    i == y * 32 + x / 2,
                    x % 2 == 0,
                    x < 64,
            ;
            data.push((c0 as u64) | ((c1 as u64) << 32));
            x = x + 2;
        }
        y = y + 1;
    }
    data
}

/// The 64x64 checkerboard texture.
pub fn checkerboard_64() -> (t: Texture)
    ensures
        t.width == 64 && t.height == 64 && t.width_log2 == 6 && t.height_log2 == 6,
        t.data@.len() == 2048,
        forall|i: int| 0 <= i < 2048 ==> #[trigger] t.data@[i] == checker_dword(i),
{
    Texture { width: 64, height: 64, width_log2: 6, height_log2: 6, data: checkerboard_64_data() }
}

/// Texture source backed by the built-in texture table (the checkerboard at
/// `TEX_ID_CHECKERBOARD`).
pub struct StaticTextureSource {
    table: Vec<Texture>,
}

impl StaticTextureSource {
    /// The table: the checkerboard only.
    pub closed spec fn table(&self) -> Seq<Texture> {
        self.table@
    }

    /// Build the texture table.
    pub fn new() -> (s: Self)
        ensures
            s.table().len() == 1,
            s.table()[TEX_ID_CHECKERBOARD as int].width == 64,
            s.table()[TEX_ID_CHECKERBOARD as int].height == 64,
            s.table()[TEX_ID_CHECKERBOARD as int].width_log2 == 6,
            s.table()[TEX_ID_CHECKERBOARD as int].height_log2 == 6,
            forall|i: int| 0 <= i < 2048 ==> #[trigger] s.table()[0].data@[i] == checker_dword(i),
            s.table()[0].data@.len() == 2048,
    {
        let mut table: Vec<Texture> = Vec::new();
        table.push(checkerboard_64());
        StaticTextureSource { table }
    }

    /// Look up a texture by ID: `None` past the end of the table, else the
    /// entry's data and dimensions.
    pub fn lookup(&self, id: u8) -> (r: Option<TextureInfo<'_>>)
        ensures
            (id as int) < self.table().len() <==> r is Some,
            r matches Some(t) ==> {
                let e = self.table()[id as int];
                &&& t.data@ == e.data@
                &&& t.width == e.width
                &&& t.height == e.height
                &&& t.width_log2 == e.width_log2
                &&& t.height_log2 == e.height_log2
            },
    {
        let tex_id = id as usize;
        if tex_id >= self.table.len() {
            return None;
        }
        let tex = &self.table[tex_id];
        Some(
            TextureInfo {
                data: tex.data.as_slice(),
                width: tex.width,
                height: tex.height,
                width_log2: tex.width_log2,
                height_log2: tex.height_log2,
            },
        )
    }
}

impl TextureSource for StaticTextureSource {
    /// Entry `id` of the table, if there is one.
    open spec fn texture(&self, id: u8) -> Option<TextureData> {
        if (id as int) < self.table().len() {
            Some(texture_value(self.table()[id as int]))
        } else {
            None
        }
    }

    /// The table entry `id`, as `lookup` gives it.
    fn get_texture(&self, id: u8) -> (r: Option<TextureInfo<'_>>)
        ensures
            (id as int) < self.table().len() <==> r is Some,
            r matches Some(t) ==> {
                let e = self.table()[id as int];
                &&& t.data@ == e.data@
                &&& t.width == e.width
                &&& t.height == e.height
                &&& t.width_log2 == e.width_log2
                &&& t.height_log2 == e.height_log2
            },
    {
        self.lookup(id)
    }
}

} // verus!
