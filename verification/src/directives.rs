//! Directives: the raw occurrences that a run is described by, and their
//! resolution into operation descriptors.
//!
//! A directive is well formed when every value that its kind asks for is
//! there and reads as the type asked for. Resolution fails on the first
//! directive that is not, before any descriptor is handed out.

use vstd::prelude::*;
use crate::commands::{
    CmdBlur, CmdBrighten, CmdCombine, CmdContrast, CmdCrop, CmdExif, CmdFlip, CmdHuerotate,
    CmdInvert, CmdResize, CmdResizeFilter, CmdRotate, CmdText, CmdUnsharpen, Command,
    CommandTrait, Descriptor, Operation,
};
use crate::decision::{accumulated_rotation, resize_mode, resolve_resize, resolve_rotation};
use crate::pipeline::{build, descriptors, is_pipeline_of, Commands};
use crate::presets::{descriptor, expand, expansion};
use crate::text::{bool_of_text, i32_of_text, parse_bool, parse_i32, parse_u32, u32_of_text};
use crate::values::{
    BoxPosition, Corner, Crop, Exif, Orientation, ResampleFilter, Resize, Rotation, Scalar,
};

verus! {

/// The kinds of directive, in the order in which a run collects them.
#[derive(Clone, Copy, Debug, PartialEq, Eq, Structural)]
pub enum DirectiveKind {
    Blur,
    Brighten,
    Contrast,
    CombineTl,
    CombineTr,
    CombineBl,
    CombineBr,
    CropBox,
    CropRatio,
    Exif,
    FlipHorizontal,
    FlipVertical,
    Huerotate,
    Invert,
    Resize,
    ResizeN,
    ResizeT,
    ResizeC,
    ResizeG,
    ResizeL,
    Rotate90,
    Rotate180,
    Rotate270,
    TextTl,
    TextTr,
    TextBl,
    TextBr,
    Unsharpen,
    Preset,
}

/// The type that a raw value is read as.
#[derive(Clone, Copy, Debug, PartialEq, Eq, Structural)]
pub enum Expected {
    /// An unsigned 32-bit decimal number.
    Unsigned,
    /// A signed 32-bit decimal number.
    Signed,
    /// A single-precision number.
    Real,
    /// `true` or `false`.
    Truth,
    /// Any text.
    Text,
}

/// One raw value of a directive: its text and, where the text reads as a
/// single-precision number, that number. Real numbers are read outside this
/// library: whoever hands a directive in fills in the number where there is
/// one.
#[derive(Clone, Debug, PartialEq, Eq)]
pub struct RawValue {
    pub text: String,
    pub scalar: Option<Scalar>,
}

/// One directive as it was recognised: its kind, the source position it was
/// given at, how often it was given, and its raw values.
#[derive(Clone, Debug, PartialEq, Eq)]
pub struct Directive {
    pub kind: DirectiveKind,
    pub index: u32,
    pub occurrences: u64,
    pub values: Vec<RawValue>,
}

/// A value of a directive that is missing or does not read as its type.
#[derive(Clone, Debug, PartialEq, Eq)]
pub struct DirectiveError {
    pub kind: DirectiveKind,
    /// The source position of the directive.
    pub index: u32,
    /// Which of the directive's values is at fault, counted from zero.
    pub slot: usize,
    pub expected: Expected,
    /// The text that was found; none where the value is missing.
    pub received: Option<String>,
}

/// The mathematical value of a `DirectiveError`.
pub struct Fault {
    pub kind: DirectiveKind,
    pub index: u32,
    pub slot: usize,
    pub expected: Expected,
    pub received: Option<Seq<char>>,
}

impl View for DirectiveError {
    type V = Fault;

    open spec fn view(&self) -> Fault {
        Fault {
            kind: self.kind,
            index: self.index,
            slot: self.slot,
            expected: self.expected,
            received: match self.received {
                Some(text) => Some(text@),
                None => None,
            },
        }
    }
}

/// The types of the values that a directive of the given kind carries, in
/// order.
pub open spec fn shape(kind: DirectiveKind) -> Seq<Expected> {
    match kind {
        DirectiveKind::Blur | DirectiveKind::Contrast => seq![Expected::Real],
        DirectiveKind::Brighten | DirectiveKind::Huerotate => seq![Expected::Signed],
        DirectiveKind::CombineTl
        | DirectiveKind::CombineTr
        | DirectiveKind::CombineBl
        | DirectiveKind::CombineBr
        | DirectiveKind::TextTl
        | DirectiveKind::TextTr
        | DirectiveKind::TextBl
        | DirectiveKind::TextBr => seq![Expected::Text, Expected::Unsigned, Expected::Unsigned],
        DirectiveKind::CropBox => seq![
            Expected::Unsigned,
            Expected::Unsigned,
            Expected::Unsigned,
            Expected::Unsigned,
        ],
        DirectiveKind::CropRatio => seq![Expected::Real, Expected::Real],
        DirectiveKind::Resize
        | DirectiveKind::ResizeN
        | DirectiveKind::ResizeT
        | DirectiveKind::ResizeC
        | DirectiveKind::ResizeG
        | DirectiveKind::ResizeL => seq![Expected::Unsigned, Expected::Unsigned, Expected::Truth],
        DirectiveKind::Unsharpen => seq![Expected::Real, Expected::Signed],
        DirectiveKind::Preset => seq![Expected::Text],
        DirectiveKind::Exif
        | DirectiveKind::FlipHorizontal
        | DirectiveKind::FlipVertical
        | DirectiveKind::Invert
        | DirectiveKind::Rotate90
        | DirectiveKind::Rotate180
        | DirectiveKind::Rotate270 => Seq::empty(),
    }
}

/// Whether a raw value reads as the given type.
pub open spec fn readable(value: RawValue, expected: Expected) -> bool {
    match expected {
        Expected::Unsigned => u32_of_text(value.text@) is Some,
        Expected::Signed => i32_of_text(value.text@) is Some,
        Expected::Real => value.scalar is Some,
        Expected::Truth => bool_of_text(value.text@) is Some,
        Expected::Text => true,
    }
}

/// The first slot at or after `from` whose value is missing or unreadable.
pub open spec fn fault_from(directive: Directive, from: int) -> Option<int>
    decreases shape(directive.kind).len() - from,
{
    if from < 0 || from >= shape(directive.kind).len() {
        None
    } else if from >= directive.values@.len() || !readable(
        directive.values@[from],
        shape(directive.kind)[from],
    ) {
        Some(from)
    } else {
        fault_from(directive, from + 1)
    }
}

/// A directive is well formed when none of its slots is at fault.
pub open spec fn well_formed(directive: Directive) -> bool {
    fault_from(directive, 0) is None
}

/// The fault of a directive: its first slot whose value is missing or
/// unreadable, with the type asked for and the text found there.
pub open spec fn fault_of(directive: Directive) -> Option<Fault> {
    match fault_from(directive, 0) {
        Some(slot) => Some(
            Fault {
                kind: directive.kind,
                index: directive.index,
                slot: slot as usize,
                expected: shape(directive.kind)[slot],
                received: if slot < directive.values@.len() {
                    Some(directive.values@[slot].text@)
                } else {
                    None
                },
            },
        ),
        None => None,
    }
}

pub open spec fn unsigned(directive: Directive, slot: int) -> u32 {
    u32_of_text(directive.values@[slot].text@)->0
}

pub open spec fn signed(directive: Directive, slot: int) -> i32 {
    i32_of_text(directive.values@[slot].text@)->0
}

pub open spec fn scalar(directive: Directive, slot: int) -> Scalar {
    directive.values@[slot].scalar->0
}

pub open spec fn truth(directive: Directive, slot: int) -> bool {
    bool_of_text(directive.values@[slot].text@)->0
}

pub open spec fn text(directive: Directive, slot: int) -> Seq<char> {
    directive.values@[slot].text@
}

/// The corner that a combine or text directive places its content at.
pub open spec fn corner_of(kind: DirectiveKind) -> Corner {
    match kind {
        DirectiveKind::CombineTr | DirectiveKind::TextTr => Corner::TopRight,
        DirectiveKind::CombineBl | DirectiveKind::TextBl => Corner::BottomLeft,
        DirectiveKind::CombineBr | DirectiveKind::TextBr => Corner::BottomRight,
        _ => Corner::TopLeft,
    }
}

/// The filter that a filtered resize directive resamples with.
pub open spec fn filter_of(kind: DirectiveKind) -> ResampleFilter {
    match kind {
        DirectiveKind::ResizeT => ResampleFilter::Triangle,
        DirectiveKind::ResizeC => ResampleFilter::CatmullRom,
        DirectiveKind::ResizeG => ResampleFilter::Gaussian,
        DirectiveKind::ResizeL => ResampleFilter::Lanczos3,
        _ => ResampleFilter::Nearest,
    }
}

/// The position that a combine or text directive asks for.
pub open spec fn placement(directive: Directive) -> BoxPosition {
    BoxPosition::at(corner_of(directive.kind), unsigned(directive, 1), unsigned(directive, 2))
}

/// The resize mode that a resize directive asks for.
pub open spec fn requested_size(directive: Directive) -> Resize {
    resize_mode(unsigned(directive, 0), unsigned(directive, 1), truth(directive, 2))
}

/// The one descriptor at `index` that stands for `operation`.
pub open spec fn single_descriptor(index: u32, operation: Operation) -> Seq<Descriptor> {
    seq![descriptor(index, operation)]
}

/// The descriptors that a well-formed directive stands for, in order: the
/// expansion of a preset, the accumulated rotation of the quarter-turn flag
/// where there is one, and one descriptor for every other kind. All stand at
/// the directive's source position.
pub open spec fn resolved(directive: Directive) -> Seq<Descriptor> {
    let index = directive.index;
    match directive.kind {
        DirectiveKind::Blur => single_descriptor(index, Operation::Blur(scalar(directive, 0))),
        DirectiveKind::Brighten => single_descriptor(
            index,
            Operation::Brighten(signed(directive, 0)),
        ),
        DirectiveKind::Contrast => single_descriptor(
            index,
            Operation::Contrast(scalar(directive, 0)),
        ),
        DirectiveKind::CombineTl
        | DirectiveKind::CombineTr
        | DirectiveKind::CombineBl
        | DirectiveKind::CombineBr => single_descriptor(
            index,
            Operation::Combine(text(directive, 0), placement(directive)),
        ),
        DirectiveKind::CropBox => single_descriptor(
            index,
            Operation::Crop(
                Crop::Box(
                    unsigned(directive, 0),
                    unsigned(directive, 1),
                    unsigned(directive, 2),
                    unsigned(directive, 3),
                ),
            ),
        ),
        DirectiveKind::CropRatio => single_descriptor(
            index,
            Operation::Crop(Crop::Ratio(scalar(directive, 0), scalar(directive, 1))),
        ),
        DirectiveKind::Exif => single_descriptor(index, Operation::Exif(Exif::Keep)),
        DirectiveKind::FlipHorizontal => single_descriptor(
            index,
            Operation::Flip(Orientation::Horizontal),
        ),
        DirectiveKind::FlipVertical => single_descriptor(
            index,
            Operation::Flip(Orientation::Vertical),
        ),
        DirectiveKind::Huerotate => single_descriptor(
            index,
            Operation::Huerotate(signed(directive, 0)),
        ),
        DirectiveKind::Invert => single_descriptor(index, Operation::Invert),
        DirectiveKind::Resize => single_descriptor(
            index,
            Operation::Resize(requested_size(directive)),
        ),
        DirectiveKind::ResizeN
        | DirectiveKind::ResizeT
        | DirectiveKind::ResizeC
        | DirectiveKind::ResizeG
        | DirectiveKind::ResizeL => single_descriptor(
            index,
            Operation::ResizeFilter(requested_size(directive), filter_of(directive.kind)),
        ),
        DirectiveKind::Rotate90 => match accumulated_rotation(directive.occurrences as nat) {
            Some(rotation) => single_descriptor(index, Operation::Rotate(rotation)),
            None => Seq::empty(),
        },
        DirectiveKind::Rotate180 => single_descriptor(
            index,
            Operation::Rotate(Rotation::Rotate180),
        ),
        DirectiveKind::Rotate270 => single_descriptor(
            index,
            Operation::Rotate(Rotation::Rotate270),
        ),
        DirectiveKind::TextTl
        | DirectiveKind::TextTr
        | DirectiveKind::TextBl
        | DirectiveKind::TextBr => single_descriptor(
            index,
            Operation::Text(text(directive, 0), placement(directive)),
        ),
        DirectiveKind::Unsharpen => single_descriptor(
            index,
            Operation::Unsharpen(scalar(directive, 0), signed(directive, 1)),
        ),
        DirectiveKind::Preset => expansion(text(directive, 0), index),
    }
}

/// The fault of the first directive at or after `from` that has one.
pub open spec fn first_fault_from(directives: Seq<Directive>, from: int) -> Option<Fault>
    decreases directives.len() - from,
{
    if from < 0 || from >= directives.len() {
        None
    } else {
        match fault_of(directives[from]) {
            Some(fault) => Some(fault),
            None => first_fault_from(directives, from + 1),
        }
    }
}

/// The fault of the first directive that has one.
pub open spec fn first_fault(directives: Seq<Directive>) -> Option<Fault> {
    first_fault_from(directives, 0)
}

/// The descriptors of all directives, in the order of the directives.
pub open spec fn collected(directives: Seq<Directive>) -> Seq<Descriptor>
    decreases directives.len(),
{
    if directives.len() == 0 {
        Seq::empty()
    } else {
        collected(directives.drop_last()) + resolved(directives.last())
    }
}

proof fn lemma_slot_is_readable(directive: Directive, from: int, slot: int)
    requires
        0 <= from <= slot < shape(directive.kind).len(),
        fault_from(directive, from) is None,
    ensures
        slot < directive.values@.len(),
        readable(directive.values@[slot], shape(directive.kind)[slot]),
    decreases slot - from,
{
    if from < slot {
        lemma_slot_is_readable(directive, from + 1, slot);
    }
}

fn shape_of(kind: DirectiveKind) -> (expected: Vec<Expected>)
    ensures
        expected@ == shape(kind),
{
    let expected = match kind {
        DirectiveKind::Blur | DirectiveKind::Contrast => vec![Expected::Real],
        DirectiveKind::Brighten | DirectiveKind::Huerotate => vec![Expected::Signed],
        DirectiveKind::CombineTl
        | DirectiveKind::CombineTr
        | DirectiveKind::CombineBl
        | DirectiveKind::CombineBr
        | DirectiveKind::TextTl
        | DirectiveKind::TextTr
        | DirectiveKind::TextBl
        | DirectiveKind::TextBr => vec![Expected::Text, Expected::Unsigned, Expected::Unsigned],
        DirectiveKind::CropBox => vec![
            Expected::Unsigned,
            Expected::Unsigned,
            Expected::Unsigned,
            Expected::Unsigned,
        ],
        DirectiveKind::CropRatio => vec![Expected::Real, Expected::Real],
        DirectiveKind::Resize
        | DirectiveKind::ResizeN
        | DirectiveKind::ResizeT
        | DirectiveKind::ResizeC
        | DirectiveKind::ResizeG
        | DirectiveKind::ResizeL => vec![Expected::Unsigned, Expected::Unsigned, Expected::Truth],
        DirectiveKind::Unsharpen => vec![Expected::Real, Expected::Signed],
        DirectiveKind::Preset => vec![Expected::Text],
        DirectiveKind::Exif
        | DirectiveKind::FlipHorizontal
        | DirectiveKind::FlipVertical
        | DirectiveKind::Invert
        | DirectiveKind::Rotate90
        | DirectiveKind::Rotate180
        | DirectiveKind::Rotate270 => Vec::new(),
    };
    assert(expected@ =~= shape(kind));
    expected
}

fn is_readable(value: &RawValue, expected: Expected) -> (yes: bool)
    ensures
        yes == readable(*value, expected),
{
    match expected {
        Expected::Unsigned => parse_u32(value.text.as_str()).is_some(),
        Expected::Signed => parse_i32(value.text.as_str()).is_some(),
        Expected::Real => value.scalar.is_some(),
        Expected::Truth => parse_bool(value.text.as_str()).is_some(),
        Expected::Text => true,
    }
}

/// Looks for the first value of a directive that is missing or does not read
/// as its type.
pub fn find_fault(directive: &Directive) -> (fault: Option<DirectiveError>)
    ensures
        match fault {
            Some(error) => fault_of(*directive) == Some(error@),
            None => well_formed(*directive),
        },
{
    let expected = shape_of(directive.kind);
    let mut slot: usize = 0;
    while slot < expected.len()
        invariant
            expected@ == shape(directive.kind),
            slot <= expected@.len(),
            fault_from(*directive, 0) == fault_from(*directive, slot as int),
        decreases expected@.len() - slot,
    {
        if slot >= directive.values.len() {
            return Some(
                DirectiveError {
                    kind: directive.kind,
                    index: directive.index,
                    slot,
                    expected: expected[slot],
                    received: None,
                },
            );
        }
        if !is_readable(&directive.values[slot], expected[slot]) {
            return Some(
                DirectiveError {
                    kind: directive.kind,
                    index: directive.index,
                    slot,
                    expected: expected[slot],
                    received: Some(directive.values[slot].text.clone()),
                },
            );
        }
        slot = slot + 1;
    }
    None
}

fn unsigned_at(directive: &Directive, slot: usize) -> (value: u32)
    requires
        well_formed(*directive),
        slot < shape(directive.kind).len(),
        shape(directive.kind)[slot as int] == Expected::Unsigned,
    ensures
        value == unsigned(*directive, slot as int),
{
    proof {
        lemma_slot_is_readable(*directive, 0, slot as int);
    }
    parse_u32(directive.values[slot].text.as_str()).unwrap()
}

fn signed_at(directive: &Directive, slot: usize) -> (value: i32)
    requires
        well_formed(*directive),
        slot < shape(directive.kind).len(),
        shape(directive.kind)[slot as int] == Expected::Signed,
    ensures
        value == signed(*directive, slot as int),
{
    proof {
        lemma_slot_is_readable(*directive, 0, slot as int);
    }
    parse_i32(directive.values[slot].text.as_str()).unwrap()
}

fn scalar_at(directive: &Directive, slot: usize) -> (value: Scalar)
    requires
        well_formed(*directive),
        slot < shape(directive.kind).len(),
        shape(directive.kind)[slot as int] == Expected::Real,
    ensures
        value == scalar(*directive, slot as int),
{
    proof {
        lemma_slot_is_readable(*directive, 0, slot as int);
    }
    directive.values[slot].scalar.unwrap()
}

fn truth_at(directive: &Directive, slot: usize) -> (value: bool)
    requires
        well_formed(*directive),
        slot < shape(directive.kind).len(),
        shape(directive.kind)[slot as int] == Expected::Truth,
    ensures
        value == truth(*directive, slot as int),
{
    proof {
        lemma_slot_is_readable(*directive, 0, slot as int);
    }
    parse_bool(directive.values[slot].text.as_str()).unwrap()
}

fn text_at(directive: &Directive, slot: usize) -> (value: String)
    requires
        well_formed(*directive),
        slot < shape(directive.kind).len(),
    ensures
        value@ == text(*directive, slot as int),
{
    proof {
        lemma_slot_is_readable(*directive, 0, slot as int);
    }
    directive.values[slot].text.clone()
}

fn corner(kind: DirectiveKind) -> (corner: Corner)
    ensures
        corner == corner_of(kind),
{
    match kind {
        DirectiveKind::CombineTr | DirectiveKind::TextTr => Corner::TopRight,
        DirectiveKind::CombineBl | DirectiveKind::TextBl => Corner::BottomLeft,
        DirectiveKind::CombineBr | DirectiveKind::TextBr => Corner::BottomRight,
        _ => Corner::TopLeft,
    }
}

/// Whether a directive of this kind overlays a second image.
pub open spec fn is_combine(kind: DirectiveKind) -> bool {
    kind == DirectiveKind::CombineTl || kind == DirectiveKind::CombineTr || kind
        == DirectiveKind::CombineBl || kind == DirectiveKind::CombineBr
}

/// Whether a directive of this kind stamps a text.
pub open spec fn is_text(kind: DirectiveKind) -> bool {
    kind == DirectiveKind::TextTl || kind == DirectiveKind::TextTr || kind == DirectiveKind::TextBl
        || kind == DirectiveKind::TextBr
}

/// Whether a directive of this kind resizes with a chosen filter.
pub open spec fn is_resize_filter(kind: DirectiveKind) -> bool {
    kind == DirectiveKind::ResizeN || kind == DirectiveKind::ResizeT || kind
        == DirectiveKind::ResizeC || kind == DirectiveKind::ResizeG || kind
        == DirectiveKind::ResizeL
}

fn create_cmd_combine(directive: &Directive) -> (cmd: CmdCombine)
    requires
        well_formed(*directive),
        is_combine(directive.kind),
    ensures
        cmd.index == directive.index,
        cmd.operation() == Operation::Combine(text(*directive, 0), placement(*directive)),
{
    let image = text_at(directive, 0);
    let x_offset = unsigned_at(directive, 1);
    let y_offset = unsigned_at(directive, 2);
    let position = BoxPosition::new(corner(directive.kind), x_offset, y_offset);
    CmdCombine::new(directive.index, image, position)
}

fn create_cmd_resize_filter(directive: &Directive) -> (cmd: CmdResizeFilter)
    requires
        well_formed(*directive),
        is_resize_filter(directive.kind),
    ensures
        cmd.index == directive.index,
        cmd.operation() == Operation::ResizeFilter(
            requested_size(*directive),
            filter_of(directive.kind),
        ),
{
    let width = unsigned_at(directive, 0);
    let height = unsigned_at(directive, 1);
    let exact = truth_at(directive, 2);
    let size = resolve_resize(width, height, exact);
    let filter = match directive.kind {
        DirectiveKind::ResizeT => ResampleFilter::Triangle,
        DirectiveKind::ResizeC => ResampleFilter::CatmullRom,
        DirectiveKind::ResizeG => ResampleFilter::Gaussian,
        DirectiveKind::ResizeL => ResampleFilter::Lanczos3,
        _ => ResampleFilter::Nearest,
    };
    CmdResizeFilter::new(directive.index, size, filter)
}

fn create_cmd_text(directive: &Directive) -> (cmd: CmdText)
    requires
        well_formed(*directive),
        is_text(directive.kind),
    ensures
        cmd.index == directive.index,
        cmd.operation() == Operation::Text(text(*directive, 0), placement(*directive)),
{
    let text = text_at(directive, 0);
    let x_offset = unsigned_at(directive, 1);
    let y_offset = unsigned_at(directive, 2);
    let position = BoxPosition::new(corner(directive.kind), x_offset, y_offset);
    CmdText::new(directive.index, text, position)
}

fn create_cmd_list_preset(directive: &Directive) -> (commands: Vec<Command>)
    requires
        well_formed(*directive),
        directive.kind == DirectiveKind::Preset,
    ensures
        descriptors(commands@) == expansion(text(*directive, 0), directive.index),
{
    let name = text_at(directive, 0);
    expand(name.as_str(), directive.index)
}

fn single(command: Command) -> (commands: Vec<Command>)
    ensures
        descriptors(commands@) == single_descriptor(command@.index, command@.operation),
{
    let mut commands: Vec<Command> = Vec::new();
    commands.push(command);
    assert(descriptors(commands@) =~= seq![command@]);
    commands
}

/// The descriptors of one well-formed directive.
fn create_commands(directive: &Directive) -> (commands: Vec<Command>)
    requires
        well_formed(*directive),
    ensures
        descriptors(commands@) == resolved(*directive),
{
    let index = directive.index;
    match directive.kind {
        DirectiveKind::Blur => single(Command::Blur(CmdBlur::new(index, scalar_at(directive, 0)))),
        DirectiveKind::Brighten => single(
            Command::Brighten(CmdBrighten::new(index, signed_at(directive, 0))),
        ),
        DirectiveKind::Contrast => single(
            Command::Contrast(CmdContrast::new(index, scalar_at(directive, 0))),
        ),
        DirectiveKind::CombineTl
        | DirectiveKind::CombineTr
        | DirectiveKind::CombineBl
        | DirectiveKind::CombineBr => single(Command::Combine(create_cmd_combine(directive))),
        DirectiveKind::CropBox => {
            let x = unsigned_at(directive, 0);
            let y = unsigned_at(directive, 1);
            let width = unsigned_at(directive, 2);
            let height = unsigned_at(directive, 3);
            single(Command::Crop(CmdCrop::new(index, Crop::Box(x, y, width, height))))
        },
        DirectiveKind::CropRatio => {
            let x_ratio = scalar_at(directive, 0);
            let y_ratio = scalar_at(directive, 1);
            single(Command::Crop(CmdCrop::new(index, Crop::Ratio(x_ratio, y_ratio))))
        },
        DirectiveKind::Exif => single(Command::Exif(CmdExif::new(index, Exif::Keep))),
        DirectiveKind::FlipHorizontal => single(
            Command::Flip(CmdFlip::new(index, Orientation::Horizontal)),
        ),
        DirectiveKind::FlipVertical => single(
            Command::Flip(CmdFlip::new(index, Orientation::Vertical)),
        ),
        DirectiveKind::Huerotate => single(
            Command::Huerotate(CmdHuerotate::new(index, signed_at(directive, 0))),
        ),
        DirectiveKind::Invert => single(Command::Invert(CmdInvert::new(index))),
        DirectiveKind::Resize => {
            let width = unsigned_at(directive, 0);
            let height = unsigned_at(directive, 1);
            let exact = truth_at(directive, 2);
            single(Command::Resize(CmdResize::new(index, resolve_resize(width, height, exact))))
        },
        DirectiveKind::ResizeN
        | DirectiveKind::ResizeT
        | DirectiveKind::ResizeC
        | DirectiveKind::ResizeG
        | DirectiveKind::ResizeL => single(
            Command::ResizeFilter(create_cmd_resize_filter(directive)),
        ),
        DirectiveKind::Rotate90 => match resolve_rotation(directive.occurrences) {
            Some(rotation) => single(Command::Rotate(CmdRotate::new(index, rotation))),
            None => {
                let commands: Vec<Command> = Vec::new();
                assert(descriptors(commands@) =~= Seq::<Descriptor>::empty());
                commands
            },
        },
        DirectiveKind::Rotate180 => single(
            Command::Rotate(CmdRotate::new(index, Rotation::Rotate180)),
        ),
        DirectiveKind::Rotate270 => single(
            Command::Rotate(CmdRotate::new(index, Rotation::Rotate270)),
        ),
        DirectiveKind::TextTl
        | DirectiveKind::TextTr
        | DirectiveKind::TextBl
        | DirectiveKind::TextBr => single(Command::Text(create_cmd_text(directive))),
        DirectiveKind::Unsharpen => {
            let sigma = scalar_at(directive, 0);
            let threshold = signed_at(directive, 1);
            single(Command::Unsharpen(CmdUnsharpen::new(index, sigma, threshold)))
        },
        DirectiveKind::Preset => create_cmd_list_preset(directive),
    }
}

/// Resolves one directive into its descriptors, or names its fault.
pub fn resolve_directive(directive: &Directive) -> (result: Result<Vec<Command>, DirectiveError>)
    ensures
        match result {
            Ok(commands) => well_formed(*directive) && descriptors(commands@) == resolved(
                *directive,
            ),
            Err(error) => fault_of(*directive) == Some(error@),
        },
{
    match find_fault(directive) {
        Some(error) => Err(error),
        None => Ok(create_commands(directive)),
    }
}

/// Resolves every directive, in order, and orders the descriptors into the
/// pipeline of the run. Where a directive is at fault, the first such fault
/// is returned and no pipeline is built.
pub fn read_commands(directives: &Vec<Directive>) -> (result: Result<Commands, DirectiveError>)
    ensures
        match result {
            Ok(pipeline) => {
                &&& first_fault(directives@) is None
                &&& pipeline.well_formed()
                &&& is_pipeline_of(pipeline@, collected(directives@))
            },
            Err(error) => first_fault(directives@) == Some(error@),
        },
{
    let mut raw: Vec<Command> = Vec::new();
    let mut i: usize = 0;
    assert(directives@.take(0) =~= Seq::<Directive>::empty());
    assert(descriptors(raw@) =~= Seq::<Descriptor>::empty());
    while i < directives.len()
        invariant
            0 <= i <= directives@.len(),
            first_fault(directives@) == first_fault_from(directives@, i as int),
            descriptors(raw@) == collected(directives@.take(i as int)),
        decreases directives@.len() - i,
    {
        match resolve_directive(&directives[i]) {
            Err(error) => {
                return Err(error);
            },
            Ok(mut commands) => {
                let ghost before = raw@;
                let ghost added = commands@;
                raw.append(&mut commands);
                proof {
                    assert(raw@ == before + added);
                    assert(descriptors(raw@) =~= descriptors(before) + descriptors(added));
                    assert(directives@.take(i + 1).drop_last() =~= directives@.take(i as int));
                    assert(directives@.take(i + 1).last() == directives@[i as int]);
                }
            },
        }
        i = i + 1;
    }
    assert(directives@.take(i as int) =~= directives@);
    Ok(build(raw))
}


/// Every kind of directive, in the order in which a run collects them.
pub open spec fn kinds_in_order() -> Seq<DirectiveKind> {
    seq![
        DirectiveKind::Blur,
        DirectiveKind::Brighten,
        DirectiveKind::Contrast,
        DirectiveKind::CombineTl,
        DirectiveKind::CombineTr,
        DirectiveKind::CombineBl,
        DirectiveKind::CombineBr,
        DirectiveKind::CropBox,
        DirectiveKind::CropRatio,
        DirectiveKind::Exif,
        DirectiveKind::FlipHorizontal,
        DirectiveKind::FlipVertical,
        DirectiveKind::Huerotate,
        DirectiveKind::Invert,
        DirectiveKind::Resize,
        DirectiveKind::ResizeN,
        DirectiveKind::ResizeT,
        DirectiveKind::ResizeC,
        DirectiveKind::ResizeG,
        DirectiveKind::ResizeL,
        DirectiveKind::Rotate90,
        DirectiveKind::Rotate180,
        DirectiveKind::Rotate270,
        DirectiveKind::TextTl,
        DirectiveKind::TextTr,
        DirectiveKind::TextBl,
        DirectiveKind::TextBr,
        DirectiveKind::Unsharpen,
        DirectiveKind::Preset,
    ]
}

/// Every kind of directive, in the order in which a run collects them.
pub fn directive_kinds() -> (kinds: Vec<DirectiveKind>)
    ensures
        kinds@ == kinds_in_order(),
{
    let kinds = vec![
        DirectiveKind::Blur,
        DirectiveKind::Brighten,
        DirectiveKind::Contrast,
        DirectiveKind::CombineTl,
        DirectiveKind::CombineTr,
        DirectiveKind::CombineBl,
        DirectiveKind::CombineBr,
        DirectiveKind::CropBox,
        DirectiveKind::CropRatio,
        DirectiveKind::Exif,
        DirectiveKind::FlipHorizontal,
        DirectiveKind::FlipVertical,
        DirectiveKind::Huerotate,
        DirectiveKind::Invert,
        DirectiveKind::Resize,
        DirectiveKind::ResizeN,
        DirectiveKind::ResizeT,
        DirectiveKind::ResizeC,
        DirectiveKind::ResizeG,
        DirectiveKind::ResizeL,
        DirectiveKind::Rotate90,
        DirectiveKind::Rotate180,
        DirectiveKind::Rotate270,
        DirectiveKind::TextTl,
        DirectiveKind::TextTr,
        DirectiveKind::TextBl,
        DirectiveKind::TextBr,
        DirectiveKind::Unsharpen,
        DirectiveKind::Preset,
    ];
    assert(kinds@ =~= kinds_in_order());
    kinds
}

impl DirectiveKind {
    /// The name that a directive of this kind is given by.
    pub open spec fn name_text(self) -> Seq<char> {
        match self {
            DirectiveKind::Blur => "blur"@,
            DirectiveKind::Brighten => "brighten"@,
            DirectiveKind::Contrast => "contrast"@,
            DirectiveKind::CombineTl => "combine_tl"@,
            DirectiveKind::CombineTr => "combine_tr"@,
            DirectiveKind::CombineBl => "combine_bl"@,
            DirectiveKind::CombineBr => "combine_br"@,
            DirectiveKind::CropBox => "crop_box"@,
            DirectiveKind::CropRatio => "crop_ratio"@,
            DirectiveKind::Exif => "exif"@,
            DirectiveKind::FlipHorizontal => "flip_horizontal"@,
            DirectiveKind::FlipVertical => "flip_vertical"@,
            DirectiveKind::Huerotate => "huerotate"@,
            DirectiveKind::Invert => "invert"@,
            DirectiveKind::Resize => "resize"@,
            DirectiveKind::ResizeN => "resize_n"@,
            DirectiveKind::ResizeT => "resize_t"@,
            DirectiveKind::ResizeC => "resize_c"@,
            DirectiveKind::ResizeG => "resize_g"@,
            DirectiveKind::ResizeL => "resize_l"@,
            DirectiveKind::Rotate90 => "rotate90"@,
            DirectiveKind::Rotate180 => "rotate180"@,
            DirectiveKind::Rotate270 => "rotate270"@,
            DirectiveKind::TextTl => "text_tl"@,
            DirectiveKind::TextTr => "text_tr"@,
            DirectiveKind::TextBl => "text_bl"@,
            DirectiveKind::TextBr => "text_br"@,
            DirectiveKind::Unsharpen => "unsharpen"@,
            DirectiveKind::Preset => "preset"@,
        }
    }

    pub fn name(&self) -> (name: &'static str)
        ensures
            name@ == self.name_text(),
    {
        match self {
            DirectiveKind::Blur => "blur",
            DirectiveKind::Brighten => "brighten",
            DirectiveKind::Contrast => "contrast",
            DirectiveKind::CombineTl => "combine_tl",
            DirectiveKind::CombineTr => "combine_tr",
            DirectiveKind::CombineBl => "combine_bl",
            DirectiveKind::CombineBr => "combine_br",
            DirectiveKind::CropBox => "crop_box",
            DirectiveKind::CropRatio => "crop_ratio",
            DirectiveKind::Exif => "exif",
            DirectiveKind::FlipHorizontal => "flip_horizontal",
            DirectiveKind::FlipVertical => "flip_vertical",
            DirectiveKind::Huerotate => "huerotate",
            DirectiveKind::Invert => "invert",
            DirectiveKind::Resize => "resize",
            DirectiveKind::ResizeN => "resize_n",
            DirectiveKind::ResizeT => "resize_t",
            DirectiveKind::ResizeC => "resize_c",
            DirectiveKind::ResizeG => "resize_g",
            DirectiveKind::ResizeL => "resize_l",
            DirectiveKind::Rotate90 => "rotate90",
            DirectiveKind::Rotate180 => "rotate180",
            DirectiveKind::Rotate270 => "rotate270",
            DirectiveKind::TextTl => "text_tl",
            DirectiveKind::TextTr => "text_tr",
            DirectiveKind::TextBl => "text_bl",
            DirectiveKind::TextBr => "text_br",
            DirectiveKind::Unsharpen => "unsharpen",
            DirectiveKind::Preset => "preset",
        }
    }

    /// The name of the value in the given slot of a directive of this kind;
    /// empty where the kind has no such slot.
    pub open spec fn parameter_text(self, slot: usize) -> Seq<char> {
        match self {
            DirectiveKind::Blur => if slot == 0 {
                "sigma"@
            } else {
                ""@
            },
            DirectiveKind::Brighten
            | DirectiveKind::Contrast => if slot == 0 {
                "value"@
            } else {
                ""@
            },
            DirectiveKind::CombineTl
            | DirectiveKind::CombineTr
            | DirectiveKind::CombineBl
            | DirectiveKind::CombineBr => if slot == 0 {
                "IMAGE_PATH"@
            } else if slot == 1 {
                "x_offset"@
            } else if slot == 2 {
                "y_offset"@
            } else {
                ""@
            },
            DirectiveKind::CropBox => if slot == 0 {
                "x"@
            } else if slot == 1 {
                "y"@
            } else if slot == 2 {
                "width"@
            } else if slot == 3 {
                "height"@
            } else {
                ""@
            },
            DirectiveKind::CropRatio => if slot == 0 {
                "x_ratio"@
            } else if slot == 1 {
                "y_ratio"@
            } else {
                ""@
            },
            DirectiveKind::Exif
            | DirectiveKind::FlipHorizontal
            | DirectiveKind::FlipVertical
            | DirectiveKind::Invert
            | DirectiveKind::Rotate90
            | DirectiveKind::Rotate180
            | DirectiveKind::Rotate270 => ""@,
            DirectiveKind::Huerotate => if slot == 0 {
                "degree"@
            } else {
                ""@
            },
            DirectiveKind::Resize
            | DirectiveKind::ResizeN
            | DirectiveKind::ResizeT
            | DirectiveKind::ResizeC
            | DirectiveKind::ResizeG
            | DirectiveKind::ResizeL => if slot == 0 {
                "width"@
            } else if slot == 1 {
                "height"@
            } else if slot == 2 {
                "exact"@
            } else {
                ""@
            },
            DirectiveKind::TextTl
            | DirectiveKind::TextTr
            | DirectiveKind::TextBl
            | DirectiveKind::TextBr => if slot == 0 {
                "text"@
            } else if slot == 1 {
                "x_offset"@
            } else if slot == 2 {
                "y_offset"@
            } else {
                ""@
            },
            DirectiveKind::Unsharpen => if slot == 0 {
                "sigma"@
            } else if slot == 1 {
                "threshold"@
            } else {
                ""@
            },
            DirectiveKind::Preset => if slot == 0 {
                "name"@
            } else {
                ""@
            },
        }
    }

    pub fn parameter(&self, slot: usize) -> (name: &'static str)
        ensures
            name@ == self.parameter_text(slot),
    {
        match self {
            DirectiveKind::Blur => if slot == 0 {
                "sigma"
            } else {
                ""
            },
            DirectiveKind::Brighten
            | DirectiveKind::Contrast => if slot == 0 {
                "value"
            } else {
                ""
            },
            DirectiveKind::CombineTl
            | DirectiveKind::CombineTr
            | DirectiveKind::CombineBl
            | DirectiveKind::CombineBr => if slot == 0 {
                "IMAGE_PATH"
            } else if slot == 1 {
                "x_offset"
            } else if slot == 2 {
                "y_offset"
            } else {
                ""
            },
            DirectiveKind::CropBox => if slot == 0 {
                "x"
            } else if slot == 1 {
                "y"
            } else if slot == 2 {
                "width"
            } else if slot == 3 {
                "height"
            } else {
                ""
            },
            DirectiveKind::CropRatio => if slot == 0 {
                "x_ratio"
            } else if slot == 1 {
                "y_ratio"
            } else {
                ""
            },
            DirectiveKind::Exif
            | DirectiveKind::FlipHorizontal
            | DirectiveKind::FlipVertical
            | DirectiveKind::Invert
            | DirectiveKind::Rotate90
            | DirectiveKind::Rotate180
            | DirectiveKind::Rotate270 => "",
            DirectiveKind::Huerotate => if slot == 0 {
                "degree"
            } else {
                ""
            },
            DirectiveKind::Resize
            | DirectiveKind::ResizeN
            | DirectiveKind::ResizeT
            | DirectiveKind::ResizeC
            | DirectiveKind::ResizeG
            | DirectiveKind::ResizeL => if slot == 0 {
                "width"
            } else if slot == 1 {
                "height"
            } else if slot == 2 {
                "exact"
            } else {
                ""
            },
            DirectiveKind::TextTl
            | DirectiveKind::TextTr
            | DirectiveKind::TextBl
            | DirectiveKind::TextBr => if slot == 0 {
                "text"
            } else if slot == 1 {
                "x_offset"
            } else if slot == 2 {
                "y_offset"
            } else {
                ""
            },
            DirectiveKind::Unsharpen => if slot == 0 {
                "sigma"
            } else if slot == 1 {
                "threshold"
            } else {
                ""
            },
            DirectiveKind::Preset => if slot == 0 {
                "name"
            } else {
                ""
            },
        }
    }
}

} // verus!
