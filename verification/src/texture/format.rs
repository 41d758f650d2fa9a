//! The pixel formats a texture can be created with.

use vstd::prelude::*;

verus! {

/// `GL_RED`: one scalar per texel.
pub const GL_RED: u32 = 0x1903;

/// `GL_RGB`: three scalars per texel.
pub const GL_RGB: u32 = 0x1907;

/// `GL_RGBA`: four scalars per texel.
pub const GL_RGBA: u32 = 0x1908;

/// A pixel format: how many scalars make up one texel, and the name the
/// graphics driver knows the format by.
pub trait TextureFormat {
    /// The number of scalars per texel, between one and four.
    spec fn components() -> nat;

    /// The driver's enumerant for the format.
    spec fn glenum() -> u32;

    /// The number of scalars per texel.
    fn num_components() -> (n: usize)
        ensures
            n == Self::components(),
            1 <= n <= 4,
    ;

    /// The driver's enumerant for the format.
    fn to_glenum() -> (e: u32)
        ensures
            e == Self::glenum(),
    ;
}

/// A single channel, stored in red.
pub struct GrayScale;

/// Red, green, blue and alpha.
pub struct RGBA;

/// Red, green and blue.
pub struct RGB;

impl TextureFormat for GrayScale {
    open spec fn components() -> nat {
        1
    }

    open spec fn glenum() -> u32 {
        GL_RED
    }

    fn num_components() -> (n: usize) {
        1
    }

    fn to_glenum() -> (e: u32) {
        GL_RED
    }
}

impl TextureFormat for RGBA {
    open spec fn components() -> nat {
        4
    }

    open spec fn glenum() -> u32 {
        GL_RGBA
    }

    fn num_components() -> (n: usize) {
        4
    }

    fn to_glenum() -> (e: u32) {
        GL_RGBA
    }
}

impl TextureFormat for RGB {
    open spec fn components() -> nat {
        3
    }

    open spec fn glenum() -> u32 {
        GL_RGB
    }

    fn num_components() -> (n: usize) {
        3
    }

    fn to_glenum() -> (e: u32) {
        GL_RGB
    }
}

} // verus!
