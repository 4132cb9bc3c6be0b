//! The kinds of texture that a material is made of.

use vstd::prelude::*;

verus! {

/// How the texels of a texture are stored and read.
#[derive(Clone, Copy, Debug, PartialEq, Eq, Structural)]
pub enum Format {
    /// Four 8-bit channels, the colours decoded from sRGB when sampled.
    Rgba8UnormSrgb,
    /// Four 8-bit channels, read as they are.
    Rgba8Unorm,
}

/// A kind of texture.
pub trait Type {
    /// The format that textures of this kind have.
    spec fn texel_format() -> Format;

    /// The format in which textures of this kind are uploaded.
    fn format() -> (format: Format)
        ensures
            format == Self::texel_format(),
    ;
}

/// A texture that holds the colour of a surface.
pub struct Diffuse;

/// A texture that holds the directions of a surface's normals.
pub struct Normal;

impl Type for Diffuse {
    /// Colours are stored in sRGB.
    open spec fn texel_format() -> Format {
        Format::Rgba8UnormSrgb
    }

    fn format() -> (format: Format) {
        Format::Rgba8UnormSrgb
    }
}

impl Type for Normal {
    /// Directions are stored as plain numbers.
    open spec fn texel_format() -> Format {
        Format::Rgba8Unorm
    }

    fn format() -> (format: Format) {
        Format::Rgba8Unorm
    }
}

} // verus!
