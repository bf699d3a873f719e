//! Presets: named lists of fully specified operations that one directive
//! stands for. Every descriptor of an expansion carries the source position
//! of that directive.

use vstd::prelude::*;
use vstd::string::*;
use crate::commands::{
    CmdBlur, CmdBrighten, CmdCrop, CmdResize, CmdText, Command, Descriptor, Operation,
};
use crate::pipeline::descriptors;
use crate::text::text_equals;
use crate::values::{BoxPosition, Crop, Resize, Scalar};

verus! {

/// The bit pattern of the single-precision number 3.
pub const THREE: u32 = 0x4040_0000;

/// The bit pattern of the single-precision number 4.
pub const FOUR: u32 = 0x4080_0000;

/// The bit pattern of the single-precision number 9.
pub const NINE: u32 = 0x4110_0000;

/// The bit pattern of the single-precision number 10.
pub const TEN: u32 = 0x4120_0000;

/// The bit pattern of the single-precision number 16.
pub const SIXTEEN: u32 = 0x4180_0000;

/// The descriptor at `index` that stands for `operation`.
pub open spec fn descriptor(index: u32, operation: Operation) -> Descriptor {
    Descriptor { index, operation }
}

/// Crop to 4:3, resize to exactly 600 by 450, stamp a notice near the bottom
/// right corner.
pub open spec fn app_copyright(index: u32) -> Seq<Descriptor> {
    seq![
        descriptor(
            index,
            Operation::Crop(Crop::Ratio(Scalar { bits: FOUR }, Scalar { bits: THREE })),
        ),
        descriptor(index, Operation::Resize(Resize::ExactBox(600, 450))),
        descriptor(index, Operation::Text("(c) thumbnailer"@, BoxPosition::BottomRight(580, 435))),
    ]
}

/// Crop to 16:9, resize to a height of 1080.
pub open spec fn full_hd(index: u32) -> Seq<Descriptor> {
    seq![
        descriptor(
            index,
            Operation::Crop(Crop::Ratio(Scalar { bits: SIXTEEN }, Scalar { bits: NINE })),
        ),
        descriptor(index, Operation::Resize(Resize::Height(1080))),
    ]
}

/// Darken by 50, then blur by 10.
pub open spec fn background(index: u32) -> Seq<Descriptor> {
    seq![
        descriptor(index, Operation::Brighten(-50i32)),
        descriptor(index, Operation::Blur(Scalar { bits: TEN })),
    ]
}

/// What the preset `name` stands for at source position `index`. A name that
/// is no preset stands for nothing.
pub open spec fn expansion(name: Seq<char>, index: u32) -> Seq<Descriptor> {
    if name == "app_copyright"@ {
        app_copyright(index)
    } else if name == "full_hd"@ {
        full_hd(index)
    } else if name == "background"@ {
        background(index)
    } else {
        Seq::empty()
    }
}

/// Expands a preset into its descriptors, in their declared order.
pub fn expand(name: &str, index: u32) -> (commands: Vec<Command>)
    ensures
        descriptors(commands@) == expansion(name@, index),
{
    let mut commands: Vec<Command> = Vec::new();
    if text_equals(name, "app_copyright") {
        commands.push(
            Command::Crop(
                CmdCrop::new(index, Crop::Ratio(Scalar::from_bits(FOUR), Scalar::from_bits(THREE))),
            ),
        );
        commands.push(Command::Resize(CmdResize::new(index, Resize::ExactBox(600, 450))));
        commands.push(
            Command::Text(
                CmdText::new(
                    index,
                    String::from_str("(c) thumbnailer"),
                    BoxPosition::BottomRight(580, 435),
                ),
            ),
        );
        assert(descriptors(commands@) =~= app_copyright(index));
    } else if text_equals(name, "full_hd") {
        commands.push(
            Command::Crop(
                CmdCrop::new(
                    index,
                    Crop::Ratio(Scalar::from_bits(SIXTEEN), Scalar::from_bits(NINE)),
                ),
            ),
        );
        commands.push(Command::Resize(CmdResize::new(index, Resize::Height(1080))));
        assert(descriptors(commands@) =~= full_hd(index));
    } else if text_equals(name, "background") {
        commands.push(Command::Brighten(CmdBrighten::new(index, -50)));
        commands.push(Command::Blur(CmdBlur::new(index, Scalar::from_bits(TEN))));
        assert(descriptors(commands@) =~= background(index));
    } else {
        assert(descriptors(commands@) =~= Seq::<Descriptor>::empty());
    }
    commands
}

/// The names of the presets.
pub fn preset_names() -> (names: Vec<&'static str>)
    ensures
        names@.len() == 3,
        names@[0]@ == "app_copyright"@,
        names@[1]@ == "full_hd"@,
        names@[2]@ == "background"@,
{
    vec!["app_copyright", "full_hd", "background"]
}

/// Every descriptor of an expansion stands at the position of the directive.
pub proof fn expansion_is_anchored(name: Seq<char>, index: u32)
    ensures
        forall|i: int|
            0 <= i < expansion(name, index).len() ==> (#[trigger] expansion(name, index)[i]).index
                == index,
{
}

/// Expanding the same name at the same position twice gives the same
/// descriptors, in the same order.
pub proof fn expansion_is_repeatable(
    first: Seq<Command>,
    second: Seq<Command>,
    name: Seq<char>,
    index: u32,
)
    requires
        descriptors(first) == expansion(name, index),
        descriptors(second) == expansion(name, index),
    ensures
        descriptors(first) == descriptors(second),
        first.len() == second.len(),
        forall|i: int| 0 <= i < first.len() ==> first[i]@ == second[i]@,
{
    assert(descriptors(first).len() == first.len());
    assert(descriptors(second).len() == second.len());
    assert forall|i: int| 0 <= i < first.len() implies first[i]@ == second[i]@ by {
        assert(descriptors(first)[i] == first[i]@);
        assert(descriptors(second)[i] == second[i]@);
    }
}

} // verus!
