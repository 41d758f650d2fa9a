//! Texture layouts: how many scalars a texture of a given size and format
//! holds, where each texel of a square raster lives, and which texture units
//! there are.

use vstd::prelude::*;

pub mod format;

use format::TextureFormat;

verus! {

/// The number of texture units that a texture can be bound to.
pub const TEXTURE_UNITS: u32 = 32;

/// Whether `texture_unit` is a unit that a texture can be bound to.
pub fn is_texture_unit(texture_unit: u32) -> (valid: bool)
    ensures
        valid == (texture_unit < TEXTURE_UNITS),
{
    texture_unit < TEXTURE_UNITS
}

/// The number of scalars in a `width` by `height` texture of format `F`.
pub open spec fn texture_scalars<F: TextureFormat>(width: u32, height: u32) -> int {
    width * height * F::components()
}

/// The length that the data of a `width` by `height` texture of format `F`
/// must have, or `None` where the texel count does not fit in 32 bits or the
/// length does not fit in `usize`.
pub fn expected_data_len<F: TextureFormat>(width: u32, height: u32) -> (len: Option<usize>)
    ensures
        len is Some <==> width * height <= u32::MAX && texture_scalars::<F>(width, height)
            <= usize::MAX,
        len matches Some(scalars) ==> scalars == texture_scalars::<F>(width, height),
{
    match width.checked_mul(height) {
        None => None,
        Some(texels) => (texels as usize).checked_mul(F::num_components()),
    }
}

/// Where the texel in column `x` and row `y` of a square raster with
/// `resolution` texels along each side lives in the raster's data: the rows
/// follow one another, each from its first column to its last.
pub open spec fn texel_index(x: int, y: int, resolution: int) -> int {
    y * resolution + x
}

/// Where the texel in column `x` and row `y` of a square raster with
/// `resolution` texels along each side lives in the raster's data.
pub fn raster_index(x: u32, y: u32, resolution: u32) -> (index: usize)
    requires
        x < resolution,
        y < resolution,
        resolution * resolution <= u32::MAX,
    ensures
        index == texel_index(x as int, y as int, resolution as int),
        index < resolution * resolution,
{
    assert(y * resolution + x < resolution * resolution) by (nonlinear_arith)
        requires
            x < resolution,
            y < resolution,
    ;
    (y * resolution + x) as usize
}

/// Each texel of a raster has a place of its own in the raster's data: the
/// index of the texel in column `x` and row `y` lies below the number of
/// texels, and column and row can be read off it again.
pub proof fn lemma_index_names_its_texel(x: int, y: int, resolution: int)
    requires
        0 <= x < resolution,
        0 <= y < resolution,
    ensures
        0 <= texel_index(x, y, resolution) < resolution * resolution,
        texel_index(x, y, resolution) % resolution == x,
        texel_index(x, y, resolution) / resolution == y,
{
    vstd::arithmetic::div_mod::lemma_fundamental_div_mod_converse(
        texel_index(x, y, resolution),
        resolution,
        y,
        x,
    );
    assert(0 <= y * resolution && y * resolution + x < resolution * resolution)
        by (nonlinear_arith)
        requires
            0 <= x < resolution,
            0 <= y < resolution,
    ;
}

/// Every place in a raster's data belongs to a texel: an index below the
/// number of texels is that of the texel in column `index % resolution` and
/// row `index / resolution`.
pub proof fn lemma_index_belongs_to_a_texel(index: int, resolution: int)
    requires
        0 < resolution,
        0 <= index < resolution * resolution,
    ensures
        0 <= index % resolution < resolution,
        0 <= index / resolution < resolution,
        texel_index(index % resolution, index / resolution, resolution) == index,
{
    vstd::arithmetic::div_mod::lemma_fundamental_div_mod(index, resolution);
    vstd::arithmetic::div_mod::lemma_mod_pos_bound(index, resolution);
    assert(0 <= index / resolution < resolution) by (nonlinear_arith)
        requires
            0 <= index < resolution * resolution,
            index == resolution * (index / resolution) + index % resolution,
            0 <= index % resolution < resolution,
            resolution > 0,
    ;
    assert(resolution * (index / resolution) == (index / resolution) * resolution)
        by (nonlinear_arith);
}

} // verus!
