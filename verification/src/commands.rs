//! Operation descriptors: one command type per operation kind, the closed
//! variant `Command` over them, and the capability call each stands for.
//!
//! Every command type and `Command` itself implement `CommandTrait`.

use vstd::prelude::*;
use vstd::string::*;
use crate::render::{
    box_position_text, crop_text, exif_text, filter_text, orientation_text, render_box_position,
    render_crop, render_exif, render_filter, render_orientation, render_resize, render_rotation,
    resize_text, rotation_text,
};
use crate::text::{padded_decimal, padded_text, signed_decimal, signed_text};
use crate::values::{
    BoxPosition, Crop, Exif, Orientation, ResampleFilter, Resize, Rotation, Scalar,
};

verus! {

/// One call on the image editing surface, with the parameters it is made
/// with, as a mathematical value.
pub enum Operation {
    Blur(Scalar),
    Brighten(i32),
    Contrast(Scalar),
    Combine(Seq<char>, BoxPosition),
    Crop(Crop),
    Exif(Exif),
    Flip(Orientation),
    Huerotate(i32),
    Invert,
    Resize(Resize),
    ResizeFilter(Resize, ResampleFilter),
    Rotate(Rotation),
    Text(Seq<char>, BoxPosition),
    Unsharpen(Scalar, i32),
}

/// One call on the image editing surface, ready to be made.
#[derive(Clone, Debug, PartialEq, Eq)]
pub enum Call {
    Blur(Scalar),
    Brighten(i32),
    Contrast(Scalar),
    Combine(String, BoxPosition),
    Crop(Crop),
    Exif(Exif),
    Flip(Orientation),
    Huerotate(i32),
    Invert,
    Resize(Resize),
    ResizeFilter(Resize, ResampleFilter),
    Rotate(Rotation),
    Text(String, BoxPosition),
    Unsharpen(Scalar, i32),
}

impl View for Call {
    type V = Operation;

    open spec fn view(&self) -> Operation {
        match self {
            Call::Blur(sigma) => Operation::Blur(*sigma),
            Call::Brighten(value) => Operation::Brighten(*value),
            Call::Contrast(value) => Operation::Contrast(*value),
            Call::Combine(image, position) => Operation::Combine(image@, *position),
            Call::Crop(config) => Operation::Crop(*config),
            Call::Exif(metadata) => Operation::Exif(*metadata),
            Call::Flip(orientation) => Operation::Flip(*orientation),
            Call::Huerotate(degree) => Operation::Huerotate(*degree),
            Call::Invert => Operation::Invert,
            Call::Resize(size) => Operation::Resize(*size),
            Call::ResizeFilter(size, filter) => Operation::ResizeFilter(*size, *filter),
            Call::Rotate(rotation) => Operation::Rotate(*rotation),
            Call::Text(text, position) => Operation::Text(text@, *position),
            Call::Unsharpen(sigma, threshold) => Operation::Unsharpen(*sigma, *threshold),
        }
    }
}

/// The mathematical value of a descriptor: its source position and the call
/// it stands for.
pub struct Descriptor {
    pub index: u32,
    pub operation: Operation,
}

/// The text that opens the audit line of every operation.
pub open spec fn line_start(index: u32) -> Seq<char> {
    "► "@ + padded_text(index as nat)
}

fn start_line(index: u32) -> (line: String)
    ensures
        line@ == line_start(index),
{
    let mut line = String::from_str("► ");
    line.append(padded_decimal(index).as_str());
    line
}

/// What every operation descriptor offers: its source position and the one
/// capability call it stands for.
pub trait CommandTrait {
    /// The source position of the directive that the descriptor came from.
    spec fn position(&self) -> u32;

    /// The call that the descriptor stands for, with its parameters.
    spec fn operation(&self) -> Operation;

    /// Names the capability call of the descriptor, with the parameters that
    /// the descriptor carries.
    fn execute(&self) -> (call: Call)
        ensures
            call@ == self.operation(),
    ;

    /// The source position of the descriptor.
    fn get_index(&self) -> (index: u32)
        ensures
            index == self.position(),
    ;
}

/// A Gaussian blur.
#[derive(Clone, Copy, Debug, PartialEq, Eq, Structural)]
pub struct CmdBlur {
    /// The source position of the directive.
    pub index: u32,
    /// How much to blur by.
    pub sigma: Scalar,
}

impl CmdBlur {
    pub fn new(index: u32, sigma: Scalar) -> (cmd: Self)
        ensures
            cmd.index == index,
            cmd.sigma == sigma,
    {
        CmdBlur { index, sigma }
    }

    /// The audit line of this command; `sigma` is the rendering of its number.
    pub open spec fn rendering(&self, sigma: Seq<char>) -> Seq<char> {
        line_start(self.index) + ". blur:\t\tsigma = "@ + sigma
    }

    pub fn print(&self, sigma: &str) -> (line: String)
        ensures
            line@ == self.rendering(sigma@),
    {
        let mut line = start_line(self.index);
        line.append(". blur:\t\tsigma = ");
        line.append(sigma);
        line
    }
}

impl CommandTrait for CmdBlur {
    open spec fn position(&self) -> u32 {
        self.index
    }

    open spec fn operation(&self) -> Operation {
        Operation::Blur(self.sigma)
    }

    fn execute(&self) -> (call: Call) {
        Call::Blur(self.sigma)
    }

    fn get_index(&self) -> (index: u32) {
        self.index
    }
}

/// A change of brightness.
#[derive(Clone, Copy, Debug, PartialEq, Eq, Structural)]
pub struct CmdBrighten {
    /// The source position of the directive.
    pub index: u32,
    /// The amount to brighten each pixel by; negative values darken.
    pub value: i32,
}

impl CmdBrighten {
    pub fn new(index: u32, value: i32) -> (cmd: Self)
        ensures
            cmd.index == index,
            cmd.value == value,
    {
        CmdBrighten { index, value }
    }

    /// The audit line of this command.
    pub open spec fn rendering(&self) -> Seq<char> {
        line_start(self.index) + ". brighten:\t\tvalue = "@ + signed_text(self.value as int)
    }

    pub fn print(&self) -> (line: String)
        ensures
            line@ == self.rendering(),
    {
        let mut line = start_line(self.index);
        line.append(". brighten:\t\tvalue = ");
        line.append(signed_decimal(self.value).as_str());
        line
    }
}

impl CommandTrait for CmdBrighten {
    open spec fn position(&self) -> u32 {
        self.index
    }

    open spec fn operation(&self) -> Operation {
        Operation::Brighten(self.value)
    }

    fn execute(&self) -> (call: Call) {
        Call::Brighten(self.value)
    }

    fn get_index(&self) -> (index: u32) {
        self.index
    }
}

/// A change of contrast.
#[derive(Clone, Copy, Debug, PartialEq, Eq, Structural)]
pub struct CmdContrast {
    /// The source position of the directive.
    pub index: u32,
    /// The amount to adjust the contrast by.
    pub value: Scalar,
}

impl CmdContrast {
    pub fn new(index: u32, value: Scalar) -> (cmd: Self)
        ensures
            cmd.index == index,
            cmd.value == value,
    {
        CmdContrast { index, value }
    }

    /// The audit line of this command; `value` is the rendering of its number.
    pub open spec fn rendering(&self, value: Seq<char>) -> Seq<char> {
        line_start(self.index) + ". contrast:\tvalue = "@ + value
    }

    pub fn print(&self, value: &str) -> (line: String)
        ensures
            line@ == self.rendering(value@),
    {
        let mut line = start_line(self.index);
        line.append(". contrast:\tvalue = ");
        line.append(value);
        line
    }
}

impl CommandTrait for CmdContrast {
    open spec fn position(&self) -> u32 {
        self.index
    }

    open spec fn operation(&self) -> Operation {
        Operation::Contrast(self.value)
    }

    fn execute(&self) -> (call: Call) {
        Call::Contrast(self.value)
    }

    fn get_index(&self) -> (index: u32) {
        self.index
    }
}

/// An overlay of a second image.
#[derive(Clone, Debug, PartialEq, Eq)]
pub struct CmdCombine {
    /// The source position of the directive.
    pub index: u32,
    /// Where the overlay image is found.
    pub image: String,
    /// Where the overlay is placed.
    pub position: BoxPosition,
}

impl CmdCombine {
    pub fn new(index: u32, image: String, position: BoxPosition) -> (cmd: Self)
        ensures
            cmd.index == index,
            cmd.image == image,
            cmd.position == position,
    {
        CmdCombine { index, image, position }
    }

    /// The audit line of this command.
    pub open spec fn rendering(&self) -> Seq<char> {
        line_start(self.index) + ". combine:\tposition = "@ + box_position_text(self.position)
    }

    pub fn print(&self) -> (line: String)
        ensures
            line@ == self.rendering(),
    {
        let mut line = start_line(self.index);
        line.append(". combine:\tposition = ");
        line.append(render_box_position(self.position).as_str());
        line
    }
}

impl CommandTrait for CmdCombine {
    open spec fn position(&self) -> u32 {
        self.index
    }

    open spec fn operation(&self) -> Operation {
        Operation::Combine(self.image@, self.position)
    }

    fn execute(&self) -> (call: Call) {
        Call::Combine(self.image.clone(), self.position)
    }

    fn get_index(&self) -> (index: u32) {
        self.index
    }
}

/// A crop to a pixel box or to an aspect ratio.
#[derive(Clone, Copy, Debug, PartialEq, Eq, Structural)]
pub struct CmdCrop {
    /// The source position of the directive.
    pub index: u32,
    /// What to cut out.
    pub config: Crop,
}

impl CmdCrop {
    pub fn new(index: u32, config: Crop) -> (cmd: Self)
        ensures
            cmd.index == index,
            cmd.config == config,
    {
        CmdCrop { index, config }
    }

    /// The audit line of this command; `x_ratio` and `y_ratio` are the
    /// renderings of the two numbers of an aspect ratio.
    pub open spec fn rendering(&self, x_ratio: Seq<char>, y_ratio: Seq<char>) -> Seq<char> {
        line_start(self.index) + ". crop:\t\t"@ + crop_text(self.config, x_ratio, y_ratio)
    }

    pub fn print(&self, x_ratio: &str, y_ratio: &str) -> (line: String)
        ensures
            line@ == self.rendering(x_ratio@, y_ratio@),
    {
        let mut line = start_line(self.index);
        line.append(". crop:\t\t");
        line.append(render_crop(self.config, x_ratio, y_ratio).as_str());
        line
    }
}

impl CommandTrait for CmdCrop {
    open spec fn position(&self) -> u32 {
        self.index
    }

    open spec fn operation(&self) -> Operation {
        Operation::Crop(self.config)
    }

    fn execute(&self) -> (call: Call) {
        Call::Crop(self.config)
    }

    fn get_index(&self) -> (index: u32) {
        self.index
    }
}

/// A policy for the metadata of the source image.
#[derive(Clone, Copy, Debug, PartialEq, Eq, Structural)]
pub struct CmdExif {
    /// The source position of the directive.
    pub index: u32,
    /// What happens to the metadata.
    pub metadata: Exif,
}

impl CmdExif {
    pub fn new(index: u32, metadata: Exif) -> (cmd: Self)
        ensures
            cmd.index == index,
            cmd.metadata == metadata,
    {
        CmdExif { index, metadata }
    }

    /// The audit line of this command.
    pub open spec fn rendering(&self) -> Seq<char> {
        line_start(self.index) + ". exif:\t\t"@ + exif_text(self.metadata)
    }

    pub fn print(&self) -> (line: String)
        ensures
            line@ == self.rendering(),
    {
        let mut line = start_line(self.index);
        line.append(". exif:\t\t");
        line.append(render_exif(self.metadata).as_str());
        line
    }
}

impl CommandTrait for CmdExif {
    open spec fn position(&self) -> u32 {
        self.index
    }

    open spec fn operation(&self) -> Operation {
        Operation::Exif(self.metadata)
    }

    fn execute(&self) -> (call: Call) {
        Call::Exif(self.metadata)
    }

    fn get_index(&self) -> (index: u32) {
        self.index
    }
}

/// A mirroring along one axis.
#[derive(Clone, Copy, Debug, PartialEq, Eq, Structural)]
pub struct CmdFlip {
    /// The source position of the directive.
    pub index: u32,
    /// The axis to mirror along.
    pub orientation: Orientation,
}

impl CmdFlip {
    pub fn new(index: u32, orientation: Orientation) -> (cmd: Self)
        ensures
            cmd.index == index,
            cmd.orientation == orientation,
    {
        CmdFlip { index, orientation }
    }

    /// The audit line of this command.
    pub open spec fn rendering(&self) -> Seq<char> {
        line_start(self.index) + ". flip:\t\torientation = "@ + orientation_text(self.orientation)
    }

    pub fn print(&self) -> (line: String)
        ensures
            line@ == self.rendering(),
    {
        let mut line = start_line(self.index);
        line.append(". flip:\t\torientation = ");
        line.append(render_orientation(self.orientation).as_str());
        line
    }
}

impl CommandTrait for CmdFlip {
    open spec fn position(&self) -> u32 {
        self.index
    }

    open spec fn operation(&self) -> Operation {
        Operation::Flip(self.orientation)
    }

    fn execute(&self) -> (call: Call) {
        Call::Flip(self.orientation)
    }

    fn get_index(&self) -> (index: u32) {
        self.index
    }
}

/// A rotation of the hue.
#[derive(Clone, Copy, Debug, PartialEq, Eq, Structural)]
pub struct CmdHuerotate {
    /// The source position of the directive.
    pub index: u32,
    /// The degrees to rotate the hue of each pixel by.
    pub degree: i32,
}

impl CmdHuerotate {
    pub fn new(index: u32, degree: i32) -> (cmd: Self)
        ensures
            cmd.index == index,
            cmd.degree == degree,
    {
        CmdHuerotate { index, degree }
    }

    /// The audit line of this command.
    pub open spec fn rendering(&self) -> Seq<char> {
        line_start(self.index) + ". huerotate:\tdegree = "@ + signed_text(self.degree as int)
    }

    pub fn print(&self) -> (line: String)
        ensures
            line@ == self.rendering(),
    {
        let mut line = start_line(self.index);
        line.append(". huerotate:\tdegree = ");
        line.append(signed_decimal(self.degree).as_str());
        line
    }
}

impl CommandTrait for CmdHuerotate {
    open spec fn position(&self) -> u32 {
        self.index
    }

    open spec fn operation(&self) -> Operation {
        Operation::Huerotate(self.degree)
    }

    fn execute(&self) -> (call: Call) {
        Call::Huerotate(self.degree)
    }

    fn get_index(&self) -> (index: u32) {
        self.index
    }
}

/// An inversion of every pixel.
#[derive(Clone, Copy, Debug, PartialEq, Eq, Structural)]
pub struct CmdInvert {
    /// The source position of the directive.
    pub index: u32,
}

impl CmdInvert {
    pub fn new(index: u32) -> (cmd: Self)
        ensures
            cmd.index == index,
    {
        CmdInvert { index }
    }

    /// The audit line of this command.
    pub open spec fn rendering(&self) -> Seq<char> {
        line_start(self.index) + ". invert"@
    }

    pub fn print(&self) -> (line: String)
        ensures
            line@ == self.rendering(),
    {
        let mut line = start_line(self.index);
        line.append(". invert");
        line
    }
}

impl CommandTrait for CmdInvert {
    open spec fn position(&self) -> u32 {
        self.index
    }

    open spec fn operation(&self) -> Operation {
        Operation::Invert
    }

    fn execute(&self) -> (call: Call) {
        Call::Invert
    }

    fn get_index(&self) -> (index: u32) {
        self.index
    }
}

/// A resize with the default filter.
#[derive(Clone, Copy, Debug, PartialEq, Eq, Structural)]
pub struct CmdResize {
    /// The source position of the directive.
    pub index: u32,
    /// The target dimensions.
    pub size: Resize,
}

impl CmdResize {
    pub fn new(index: u32, size: Resize) -> (cmd: Self)
        ensures
            cmd.index == index,
            cmd.size == size,
    {
        CmdResize { index, size }
    }

    /// The audit line of this command.
    pub open spec fn rendering(&self) -> Seq<char> {
        line_start(self.index) + ". resize:\t\t"@ + resize_text(self.size)
    }

    pub fn print(&self) -> (line: String)
        ensures
            line@ == self.rendering(),
    {
        let mut line = start_line(self.index);
        line.append(". resize:\t\t");
        line.append(render_resize(self.size).as_str());
        line
    }
}

impl CommandTrait for CmdResize {
    open spec fn position(&self) -> u32 {
        self.index
    }

    open spec fn operation(&self) -> Operation {
        Operation::Resize(self.size)
    }

    fn execute(&self) -> (call: Call) {
        Call::Resize(self.size)
    }

    fn get_index(&self) -> (index: u32) {
        self.index
    }
}

/// A resize with a chosen resampling filter.
#[derive(Clone, Copy, Debug, PartialEq, Eq, Structural)]
pub struct CmdResizeFilter {
    /// The source position of the directive.
    pub index: u32,
    /// The target dimensions.
    pub size: Resize,
    /// The resampling filter.
    pub filter: ResampleFilter,
}

impl CmdResizeFilter {
    pub fn new(index: u32, size: Resize, filter: ResampleFilter) -> (cmd: Self)
        ensures
            cmd.index == index,
            cmd.size == size,
            cmd.filter == filter,
    {
        CmdResizeFilter { index, size, filter }
    }

    /// The audit line of this command.
    pub open spec fn rendering(&self) -> Seq<char> {
        line_start(self.index) + ". resize_filter:\t"@ + resize_text(self.size) + "\tfilter: "@
            + filter_text(self.filter)
    }

    pub fn print(&self) -> (line: String)
        ensures
            line@ == self.rendering(),
    {
        let mut line = start_line(self.index);
        line.append(". resize_filter:\t");
        line.append(render_resize(self.size).as_str());
        line.append("\tfilter: ");
        line.append(render_filter(self.filter).as_str());
        line
    }
}

impl CommandTrait for CmdResizeFilter {
    open spec fn position(&self) -> u32 {
        self.index
    }

    open spec fn operation(&self) -> Operation {
        Operation::ResizeFilter(self.size, self.filter)
    }

    fn execute(&self) -> (call: Call) {
        Call::ResizeFilter(self.size, self.filter)
    }

    fn get_index(&self) -> (index: u32) {
        self.index
    }
}

/// A rotation by quarter turns.
#[derive(Clone, Copy, Debug, PartialEq, Eq, Structural)]
pub struct CmdRotate {
    /// The source position of the directive.
    pub index: u32,
    /// The angle to rotate by.
    pub rotation: Rotation,
}

impl CmdRotate {
    pub fn new(index: u32, rotation: Rotation) -> (cmd: Self)
        ensures
            cmd.index == index,
            cmd.rotation == rotation,
    {
        CmdRotate { index, rotation }
    }

    /// The audit line of this command.
    pub open spec fn rendering(&self) -> Seq<char> {
        line_start(self.index) + ". rotate:\t\trotation = "@ + rotation_text(self.rotation)
    }

    pub fn print(&self) -> (line: String)
        ensures
            line@ == self.rendering(),
    {
        let mut line = start_line(self.index);
        line.append(". rotate:\t\trotation = ");
        line.append(render_rotation(self.rotation).as_str());
        line
    }
}

impl CommandTrait for CmdRotate {
    open spec fn position(&self) -> u32 {
        self.index
    }

    open spec fn operation(&self) -> Operation {
        Operation::Rotate(self.rotation)
    }

    fn execute(&self) -> (call: Call) {
        Call::Rotate(self.rotation)
    }

    fn get_index(&self) -> (index: u32) {
        self.index
    }
}

/// A line of text stamped into the image.
#[derive(Clone, Debug, PartialEq, Eq)]
pub struct CmdText {
    /// The source position of the directive.
    pub index: u32,
    /// The text to stamp.
    pub text: String,
    /// Where the text is placed.
    pub position: BoxPosition,
}

impl CmdText {
    pub fn new(index: u32, text: String, position: BoxPosition) -> (cmd: Self)
        ensures
            cmd.index == index,
            cmd.text == text,
            cmd.position == position,
    {
        CmdText { index, text, position }
    }

    /// The audit line of this command.
    pub open spec fn rendering(&self) -> Seq<char> {
        line_start(self.index) + ". text:\t\t"@ + box_position_text(self.position) + "\ttext: "@
            + self.text@
    }

    pub fn print(&self) -> (line: String)
        ensures
            line@ == self.rendering(),
    {
        let mut line = start_line(self.index);
        line.append(". text:\t\t");
        line.append(render_box_position(self.position).as_str());
        line.append("\ttext: ");
        line.append(self.text.as_str());
        line
    }
}

impl CommandTrait for CmdText {
    open spec fn position(&self) -> u32 {
        self.index
    }

    open spec fn operation(&self) -> Operation {
        Operation::Text(self.text@, self.position)
    }

    fn execute(&self) -> (call: Call) {
        Call::Text(self.text.clone(), self.position)
    }

    fn get_index(&self) -> (index: u32) {
        self.index
    }
}

/// An unsharp mask.
#[derive(Clone, Copy, Debug, PartialEq, Eq, Structural)]
pub struct CmdUnsharpen {
    /// The source position of the directive.
    pub index: u32,
    /// How much to blur the mask by.
    pub sigma: Scalar,
    /// The least difference between a pixel and its blurred version that is sharpened.
    pub threshold: i32,
}

impl CmdUnsharpen {
    pub fn new(index: u32, sigma: Scalar, threshold: i32) -> (cmd: Self)
        ensures
            cmd.index == index,
            cmd.sigma == sigma,
            cmd.threshold == threshold,
    {
        CmdUnsharpen { index, sigma, threshold }
    }

    /// The audit line of this command; `sigma` is the rendering of its number.
    pub open spec fn rendering(&self, sigma: Seq<char>) -> Seq<char> {
        line_start(self.index) + ". unsharpen:\tsigma = "@ + sigma + "\t\tthreshold = "@
            + signed_text(self.threshold as int)
    }

    pub fn print(&self, sigma: &str) -> (line: String)
        ensures
            line@ == self.rendering(sigma@),
    {
        let mut line = start_line(self.index);
        line.append(". unsharpen:\tsigma = ");
        line.append(sigma);
        line.append("\t\tthreshold = ");
        line.append(signed_decimal(self.threshold).as_str());
        line
    }
}

impl CommandTrait for CmdUnsharpen {
    open spec fn position(&self) -> u32 {
        self.index
    }

    open spec fn operation(&self) -> Operation {
        Operation::Unsharpen(self.sigma, self.threshold)
    }

    fn execute(&self) -> (call: Call) {
        Call::Unsharpen(self.sigma, self.threshold)
    }

    fn get_index(&self) -> (index: u32) {
        self.index
    }
}

/// An operation descriptor: one editing instruction, its parameters and the
/// source position of the directive it came from.
#[derive(Clone, Debug, PartialEq, Eq)]
pub enum Command {
    Blur(CmdBlur),
    Brighten(CmdBrighten),
    Contrast(CmdContrast),
    Combine(CmdCombine),
    Crop(CmdCrop),
    Exif(CmdExif),
    Flip(CmdFlip),
    Huerotate(CmdHuerotate),
    Invert(CmdInvert),
    Resize(CmdResize),
    ResizeFilter(CmdResizeFilter),
    Rotate(CmdRotate),
    Text(CmdText),
    Unsharpen(CmdUnsharpen),
}

impl View for Command {
    type V = Descriptor;

    open spec fn view(&self) -> Descriptor {
        match self {
            Command::Blur(cmd) => Descriptor { index: cmd.index, operation: cmd.operation() },
            Command::Brighten(cmd) => Descriptor { index: cmd.index, operation: cmd.operation() },
            Command::Contrast(cmd) => Descriptor { index: cmd.index, operation: cmd.operation() },
            Command::Combine(cmd) => Descriptor { index: cmd.index, operation: cmd.operation() },
            Command::Crop(cmd) => Descriptor { index: cmd.index, operation: cmd.operation() },
            Command::Exif(cmd) => Descriptor { index: cmd.index, operation: cmd.operation() },
            Command::Flip(cmd) => Descriptor { index: cmd.index, operation: cmd.operation() },
            Command::Huerotate(cmd) => Descriptor { index: cmd.index, operation: cmd.operation() },
            Command::Invert(cmd) => Descriptor { index: cmd.index, operation: cmd.operation() },
            Command::Resize(cmd) => Descriptor { index: cmd.index, operation: cmd.operation() },
            Command::ResizeFilter(cmd) => Descriptor {
                index: cmd.index,
                operation: cmd.operation(),
            },
            Command::Rotate(cmd) => Descriptor { index: cmd.index, operation: cmd.operation() },
            Command::Text(cmd) => Descriptor { index: cmd.index, operation: cmd.operation() },
            Command::Unsharpen(cmd) => Descriptor { index: cmd.index, operation: cmd.operation() },
        }
    }
}

impl CommandTrait for Command {
    open spec fn position(&self) -> u32 {
        self@.index
    }

    open spec fn operation(&self) -> Operation {
        self@.operation
    }

    fn execute(&self) -> (call: Call) {
        match self {
            Command::Blur(cmd) => cmd.execute(),
            Command::Brighten(cmd) => cmd.execute(),
            Command::Contrast(cmd) => cmd.execute(),
            Command::Combine(cmd) => cmd.execute(),
            Command::Crop(cmd) => cmd.execute(),
            Command::Exif(cmd) => cmd.execute(),
            Command::Flip(cmd) => cmd.execute(),
            Command::Huerotate(cmd) => cmd.execute(),
            Command::Invert(cmd) => cmd.execute(),
            Command::Resize(cmd) => cmd.execute(),
            Command::ResizeFilter(cmd) => cmd.execute(),
            Command::Rotate(cmd) => cmd.execute(),
            Command::Text(cmd) => cmd.execute(),
            Command::Unsharpen(cmd) => cmd.execute(),
        }
    }

    fn get_index(&self) -> (index: u32) {
        match self {
            Command::Blur(cmd) => cmd.get_index(),
            Command::Brighten(cmd) => cmd.get_index(),
            Command::Contrast(cmd) => cmd.get_index(),
            Command::Combine(cmd) => cmd.get_index(),
            Command::Crop(cmd) => cmd.get_index(),
            Command::Exif(cmd) => cmd.get_index(),
            Command::Flip(cmd) => cmd.get_index(),
            Command::Huerotate(cmd) => cmd.get_index(),
            Command::Invert(cmd) => cmd.get_index(),
            Command::Resize(cmd) => cmd.get_index(),
            Command::ResizeFilter(cmd) => cmd.get_index(),
            Command::Rotate(cmd) => cmd.get_index(),
            Command::Text(cmd) => cmd.get_index(),
            Command::Unsharpen(cmd) => cmd.get_index(),
        }
    }
}

impl Command {
    /// The audit line of this descriptor. `first` and `second` are the
    /// renderings of its first and second real number; a descriptor with
    /// fewer real numbers leaves the rest unused.
    pub open spec fn rendering(&self, first: Seq<char>, second: Seq<char>) -> Seq<char> {
        match self {
            Command::Blur(cmd) => cmd.rendering(first),
            Command::Brighten(cmd) => cmd.rendering(),
            Command::Contrast(cmd) => cmd.rendering(first),
            Command::Combine(cmd) => cmd.rendering(),
            Command::Crop(cmd) => cmd.rendering(first, second),
            Command::Exif(cmd) => cmd.rendering(),
            Command::Flip(cmd) => cmd.rendering(),
            Command::Huerotate(cmd) => cmd.rendering(),
            Command::Invert(cmd) => cmd.rendering(),
            Command::Resize(cmd) => cmd.rendering(),
            Command::ResizeFilter(cmd) => cmd.rendering(),
            Command::Rotate(cmd) => cmd.rendering(),
            Command::Text(cmd) => cmd.rendering(),
            Command::Unsharpen(cmd) => cmd.rendering(first),
        }
    }

    pub fn print(&self, first: &str, second: &str) -> (line: String)
        ensures
            line@ == self.rendering(first@, second@),
    {
        match self {
            Command::Blur(cmd) => cmd.print(first),
            Command::Brighten(cmd) => cmd.print(),
            Command::Contrast(cmd) => cmd.print(first),
            Command::Combine(cmd) => cmd.print(),
            Command::Crop(cmd) => cmd.print(first, second),
            Command::Exif(cmd) => cmd.print(),
            Command::Flip(cmd) => cmd.print(),
            Command::Huerotate(cmd) => cmd.print(),
            Command::Invert(cmd) => cmd.print(),
            Command::Resize(cmd) => cmd.print(),
            Command::ResizeFilter(cmd) => cmd.print(),
            Command::Rotate(cmd) => cmd.print(),
            Command::Text(cmd) => cmd.print(),
            Command::Unsharpen(cmd) => cmd.print(first),
        }
    }
}

} // verus!
