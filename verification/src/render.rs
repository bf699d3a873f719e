//! One-line renderings of parameter values, as they appear in the audit line
//! of an operation.

use vstd::prelude::*;
use vstd::string::*;
use crate::text::{decimal, decimal_text};
use crate::values::{BoxPosition, Crop, Exif, Orientation, ResampleFilter, Resize, Rotation};

verus! {

/// A name followed by two values in brackets.
pub open spec fn pair_text(name: Seq<char>, first: Seq<char>, second: Seq<char>) -> Seq<char> {
    name + "("@ + first + ", "@ + second + ")"@
}

pub open spec fn box_position_text(position: BoxPosition) -> Seq<char> {
    match position {
        BoxPosition::TopLeft(x, y) => pair_text(
            "TopLeft"@,
            decimal_text(x as nat),
            decimal_text(y as nat),
        ),
        BoxPosition::TopRight(x, y) => pair_text(
            "TopRight"@,
            decimal_text(x as nat),
            decimal_text(y as nat),
        ),
        BoxPosition::BottomLeft(x, y) => pair_text(
            "BottomLeft"@,
            decimal_text(x as nat),
            decimal_text(y as nat),
        ),
        BoxPosition::BottomRight(x, y) => pair_text(
            "BottomRight"@,
            decimal_text(x as nat),
            decimal_text(y as nat),
        ),
    }
}

/// The rendering of a crop; `first` and `second` are the renderings of the
/// two numbers of an aspect ratio and do not appear for a pixel box.
pub open spec fn crop_text(config: Crop, first: Seq<char>, second: Seq<char>) -> Seq<char> {
    match config {
        Crop::Box(x, y, width, height) => "Box("@ + decimal_text(x as nat) + ", "@ + decimal_text(
            y as nat,
        ) + ", "@ + decimal_text(width as nat) + ", "@ + decimal_text(height as nat) + ")"@,
        Crop::Ratio(_, _) => pair_text("Ratio"@, first, second),
    }
}

pub open spec fn exif_text(metadata: Exif) -> Seq<char> {
    match metadata {
        Exif::Keep => "Keep"@,
    }
}

pub open spec fn orientation_text(orientation: Orientation) -> Seq<char> {
    match orientation {
        Orientation::Horizontal => "Horizontal"@,
        Orientation::Vertical => "Vertical"@,
    }
}

pub open spec fn filter_text(filter: ResampleFilter) -> Seq<char> {
    match filter {
        ResampleFilter::Nearest => "Nearest"@,
        ResampleFilter::Triangle => "Triangle"@,
        ResampleFilter::CatmullRom => "CatmullRom"@,
        ResampleFilter::Gaussian => "Gaussian"@,
        ResampleFilter::Lanczos3 => "Lanczos3"@,
    }
}

pub open spec fn resize_text(size: Resize) -> Seq<char> {
    match size {
        Resize::Width(width) => "Width("@ + decimal_text(width as nat) + ")"@,
        Resize::Height(height) => "Height("@ + decimal_text(height as nat) + ")"@,
        Resize::BoundingBox(width, height) => pair_text(
            "BoundingBox"@,
            decimal_text(width as nat),
            decimal_text(height as nat),
        ),
        Resize::ExactBox(width, height) => pair_text(
            "ExactBox"@,
            decimal_text(width as nat),
            decimal_text(height as nat),
        ),
    }
}

pub open spec fn rotation_text(rotation: Rotation) -> Seq<char> {
    match rotation {
        Rotation::Rotate90 => "Rotate90"@,
        Rotation::Rotate180 => "Rotate180"@,
        Rotation::Rotate270 => "Rotate270"@,
    }
}

fn render_pair(name: &str, first: &str, second: &str) -> (line: String)
    ensures
        line@ == pair_text(name@, first@, second@),
{
    let mut line = String::from_str(name);
    line.append("(");
    line.append(first);
    line.append(", ");
    line.append(second);
    line.append(")");
    line
}

pub fn render_box_position(position: BoxPosition) -> (line: String)
    ensures
        line@ == box_position_text(position),
{
    match position {
        BoxPosition::TopLeft(x, y) => render_pair(
            "TopLeft",
            decimal(x).as_str(),
            decimal(y).as_str(),
        ),
        BoxPosition::TopRight(x, y) => render_pair(
            "TopRight",
            decimal(x).as_str(),
            decimal(y).as_str(),
        ),
        BoxPosition::BottomLeft(x, y) => render_pair(
            "BottomLeft",
            decimal(x).as_str(),
            decimal(y).as_str(),
        ),
        BoxPosition::BottomRight(x, y) => render_pair(
            "BottomRight",
            decimal(x).as_str(),
            decimal(y).as_str(),
        ),
    }
}

pub fn render_crop(config: Crop, first: &str, second: &str) -> (line: String)
    ensures
        line@ == crop_text(config, first@, second@),
{
    match config {
        Crop::Box(x, y, width, height) => {
            let mut line = String::from_str("Box(");
            line.append(decimal(x).as_str());
            line.append(", ");
            line.append(decimal(y).as_str());
            line.append(", ");
            line.append(decimal(width).as_str());
            line.append(", ");
            line.append(decimal(height).as_str());
            line.append(")");
            line
        },
        Crop::Ratio(_, _) => render_pair("Ratio", first, second),
    }
}

pub fn render_exif(metadata: Exif) -> (line: String)
    ensures
        line@ == exif_text(metadata),
{
    match metadata {
        Exif::Keep => String::from_str("Keep"),
    }
}

pub fn render_orientation(orientation: Orientation) -> (line: String)
    ensures
        line@ == orientation_text(orientation),
{
    match orientation {
        Orientation::Horizontal => String::from_str("Horizontal"),
        Orientation::Vertical => String::from_str("Vertical"),
    }
}

pub fn render_filter(filter: ResampleFilter) -> (line: String)
    ensures
        line@ == filter_text(filter),
{
    match filter {
        ResampleFilter::Nearest => String::from_str("Nearest"),
        ResampleFilter::Triangle => String::from_str("Triangle"),
        ResampleFilter::CatmullRom => String::from_str("CatmullRom"),
        ResampleFilter::Gaussian => String::from_str("Gaussian"),
        ResampleFilter::Lanczos3 => String::from_str("Lanczos3"),
    }
}

pub fn render_resize(size: Resize) -> (line: String)
    ensures
        line@ == resize_text(size),
{
    match size {
        Resize::Width(width) => {
            let mut line = String::from_str("Width(");
            line.append(decimal(width).as_str());
            line.append(")");
            line
        },
        Resize::Height(height) => {
            let mut line = String::from_str("Height(");
            line.append(decimal(height).as_str());
            line.append(")");
            line
        },
        Resize::BoundingBox(width, height) => render_pair(
            "BoundingBox",
            decimal(width).as_str(),
            decimal(height).as_str(),
        ),
        Resize::ExactBox(width, height) => render_pair(
            "ExactBox",
            decimal(width).as_str(),
            decimal(height).as_str(),
        ),
    }
}

pub fn render_rotation(rotation: Rotation) -> (line: String)
    ensures
        line@ == rotation_text(rotation),
{
    match rotation {
        Rotation::Rotate90 => String::from_str("Rotate90"),
        Rotation::Rotate180 => String::from_str("Rotate180"),
        Rotation::Rotate270 => String::from_str("Rotate270"),
    }
}

} // verus!
