//! Parameter values carried by operation descriptors.

use vstd::prelude::*;

verus! {

/// A single-precision number, held by its IEEE-754 bit pattern.
///
/// The library never computes with such a number: it carries the pattern from
/// the directive to the capability call unchanged.
#[derive(Clone, Copy, Debug, PartialEq, Eq, Structural)]
pub struct Scalar {
    pub bits: u32,
}

impl Scalar {
    pub fn from_bits(bits: u32) -> (scalar: Scalar)
        ensures
            scalar.bits == bits,
    {
        Scalar { bits }
    }

    pub fn to_bits(&self) -> (bits: u32)
        ensures
            bits == self.bits,
    {
        self.bits
    }
}

/// A corner of the image together with a horizontal and a vertical pixel
/// offset from that corner.
#[derive(Clone, Copy, Debug, PartialEq, Eq, Structural)]
pub enum BoxPosition {
    TopLeft(u32, u32),
    TopRight(u32, u32),
    BottomLeft(u32, u32),
    BottomRight(u32, u32),
}

/// The named corner of a `BoxPosition`.
#[derive(Clone, Copy, Debug, PartialEq, Eq, Structural)]
pub enum Corner {
    TopLeft,
    TopRight,
    BottomLeft,
    BottomRight,
}

/// What to cut out: a pixel box (x, y, width, height) or an aspect ratio.
#[derive(Clone, Copy, Debug, PartialEq, Eq, Structural)]
pub enum Crop {
    Box(u32, u32, u32, u32),
    Ratio(Scalar, Scalar),
}

/// What happens to the metadata of the source image.
#[derive(Clone, Copy, Debug, PartialEq, Eq, Structural)]
pub enum Exif {
    Keep,
}

/// The axis along which an image is mirrored.
#[derive(Clone, Copy, Debug, PartialEq, Eq, Structural)]
pub enum Orientation {
    Horizontal,
    Vertical,
}

/// The resampling filter of a filtered resize.
#[derive(Clone, Copy, Debug, PartialEq, Eq, Structural)]
pub enum ResampleFilter {
    Nearest,
    Triangle,
    CatmullRom,
    Gaussian,
    Lanczos3,
}

/// The four ways a resize can constrain the target dimensions.
#[derive(Clone, Copy, Debug, PartialEq, Eq, Structural)]
pub enum Resize {
    Width(u32),
    Height(u32),
    BoundingBox(u32, u32),
    ExactBox(u32, u32),
}

/// A rotation by a multiple of a quarter turn that changes the image.
#[derive(Clone, Copy, Debug, PartialEq, Eq, Structural)]
pub enum Rotation {
    Rotate90,
    Rotate180,
    Rotate270,
}

impl BoxPosition {
    /// The position at the given corner with the given offsets.
    pub open spec fn at(corner: Corner, x_offset: u32, y_offset: u32) -> BoxPosition {
        match corner {
            Corner::TopLeft => BoxPosition::TopLeft(x_offset, y_offset),
            Corner::TopRight => BoxPosition::TopRight(x_offset, y_offset),
            Corner::BottomLeft => BoxPosition::BottomLeft(x_offset, y_offset),
            Corner::BottomRight => BoxPosition::BottomRight(x_offset, y_offset),
        }
    }

    pub fn new(corner: Corner, x_offset: u32, y_offset: u32) -> (position: BoxPosition)
        ensures
            position == BoxPosition::at(corner, x_offset, y_offset),
    {
        match corner {
            Corner::TopLeft => BoxPosition::TopLeft(x_offset, y_offset),
            Corner::TopRight => BoxPosition::TopRight(x_offset, y_offset),
            Corner::BottomLeft => BoxPosition::BottomLeft(x_offset, y_offset),
            Corner::BottomRight => BoxPosition::BottomRight(x_offset, y_offset),
        }
    }
}

} // verus!
