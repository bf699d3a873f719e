use thumbnailer_cli::commands::{
    Call, CmdBlur, CmdBrighten, CmdCombine, CmdContrast, CmdCrop, CmdExif, CmdFlip, CmdHuerotate,
    CmdInvert, CmdResize, CmdResizeFilter, CmdRotate, CmdText, CmdUnsharpen, Command, CommandTrait,
};
use thumbnailer_cli::render::{
    render_box_position, render_crop, render_exif, render_filter, render_orientation,
    render_resize, render_rotation,
};
use thumbnailer_cli::values::{
    BoxPosition, Corner, Crop, Exif, Orientation, ResampleFilter, Resize, Rotation, Scalar,
};

fn scalar(value: f32) -> Scalar {
    Scalar::from_bits(value.to_bits())
}

#[test]
fn scalars_keep_their_bit_pattern() {
    let s = scalar(5.8);
    assert_eq!(s.to_bits(), 5.8f32.to_bits());
    assert_eq!(f32::from_bits(s.to_bits()), 5.8);
    assert_eq!(Scalar::from_bits(0x4120_0000).to_bits(), 10.0f32.to_bits());
}

#[test]
fn box_positions_are_made_from_corner_and_offsets() {
    assert_eq!(BoxPosition::new(Corner::TopLeft, 1, 2), BoxPosition::TopLeft(1, 2));
    assert_eq!(BoxPosition::new(Corner::TopRight, 3, 4), BoxPosition::TopRight(3, 4));
    assert_eq!(BoxPosition::new(Corner::BottomLeft, 5, 6), BoxPosition::BottomLeft(5, 6));
    assert_eq!(BoxPosition::new(Corner::BottomRight, 7, 8), BoxPosition::BottomRight(7, 8));
}

#[test]
fn constructors_keep_their_arguments() {
    let blur = CmdBlur::new(1, scalar(0.5));
    assert_eq!(blur.get_index(), 1);
    assert_eq!(blur.sigma, scalar(0.5));
    let brighten = CmdBrighten::new(2, 3);
    assert_eq!(brighten.get_index(), 2);
    assert_eq!(brighten.value, 3);
    let huerotate = CmdHuerotate::new(8, 90);
    assert_eq!(huerotate.get_index(), 8);
    assert_eq!(huerotate.degree, 90);
    let invert = CmdInvert::new(9);
    assert_eq!(invert.get_index(), 9);
    let filter = CmdResizeFilter::new(11, Resize::BoundingBox(400, 300), ResampleFilter::Nearest);
    assert_eq!(filter.get_index(), 11);
    assert_eq!(filter.size, Resize::BoundingBox(400, 300));
    assert_eq!(filter.filter, ResampleFilter::Nearest);
    let text = CmdText::new(13, String::from("(c) Thumbnailer"), BoxPosition::TopLeft(37, 28));
    assert_eq!(text.get_index(), 13);
    assert_eq!(text.text, "(c) Thumbnailer");
    assert_eq!(text.position, BoxPosition::TopLeft(37, 28));
    let combine = CmdCombine::new(4, String::from("logo.png"), BoxPosition::TopLeft(34, 56));
    assert_eq!(combine.get_index(), 4);
    assert_eq!(combine.image, "logo.png");
}

#[test]
fn every_command_names_its_own_call() {
    assert_eq!(CmdBlur::new(1, scalar(0.5)).execute(), Call::Blur(scalar(0.5)));
    assert_eq!(CmdBrighten::new(1, -3).execute(), Call::Brighten(-3));
    assert_eq!(CmdContrast::new(1, scalar(0.8)).execute(), Call::Contrast(scalar(0.8)));
    assert_eq!(
        CmdCombine::new(1, String::from("logo.png"), BoxPosition::TopRight(3, 4)).execute(),
        Call::Combine(String::from("logo.png"), BoxPosition::TopRight(3, 4))
    );
    assert_eq!(CmdCrop::new(1, Crop::Box(1, 2, 3, 4)).execute(), Call::Crop(Crop::Box(1, 2, 3, 4)));
    assert_eq!(CmdExif::new(1, Exif::Keep).execute(), Call::Exif(Exif::Keep));
    assert_eq!(
        CmdFlip::new(1, Orientation::Vertical).execute(),
        Call::Flip(Orientation::Vertical)
    );
    assert_eq!(CmdHuerotate::new(1, 90).execute(), Call::Huerotate(90));
    assert_eq!(CmdInvert::new(1).execute(), Call::Invert);
    assert_eq!(CmdResize::new(1, Resize::Width(7)).execute(), Call::Resize(Resize::Width(7)));
    assert_eq!(
        CmdResizeFilter::new(1, Resize::Height(7), ResampleFilter::Lanczos3).execute(),
        Call::ResizeFilter(Resize::Height(7), ResampleFilter::Lanczos3)
    );
    assert_eq!(
        CmdRotate::new(1, Rotation::Rotate270).execute(),
        Call::Rotate(Rotation::Rotate270)
    );
    assert_eq!(
        CmdText::new(1, String::from("hello"), BoxPosition::BottomLeft(5, 6)).execute(),
        Call::Text(String::from("hello"), BoxPosition::BottomLeft(5, 6))
    );
    assert_eq!(
        CmdUnsharpen::new(1, scalar(0.3), 2).execute(),
        Call::Unsharpen(scalar(0.3), 2)
    );
}

#[test]
fn a_descriptor_names_the_call_of_its_command() {
    let command = Command::Unsharpen(CmdUnsharpen::new(14, scalar(0.3), 2));
    assert_eq!(command.get_index(), 14);
    assert_eq!(command.execute(), Call::Unsharpen(scalar(0.3), 2));
    let command = Command::Invert(CmdInvert::new(0));
    assert_eq!(command.get_index(), 0);
    assert_eq!(command.execute(), Call::Invert);
}

#[test]
fn values_render_as_their_debug_form() {
    for position in [
        BoxPosition::TopLeft(34, 56),
        BoxPosition::TopRight(0, 0),
        BoxPosition::BottomLeft(1, u32::MAX),
        BoxPosition::BottomRight(580, 435),
    ] {
        assert_eq!(render_box_position(position), format!("{:?}", position));
    }
    for size in [
        Resize::Width(10),
        Resize::Height(1080),
        Resize::BoundingBox(400, 300),
        Resize::ExactBox(600, 450),
    ] {
        assert_eq!(render_resize(size), format!("{:?}", size));
    }
    for filter in [
        ResampleFilter::Nearest,
        ResampleFilter::Triangle,
        ResampleFilter::CatmullRom,
        ResampleFilter::Gaussian,
        ResampleFilter::Lanczos3,
    ] {
        assert_eq!(render_filter(filter), format!("{:?}", filter));
    }
    for rotation in [Rotation::Rotate90, Rotation::Rotate180, Rotation::Rotate270] {
        assert_eq!(render_rotation(rotation), format!("{:?}", rotation));
    }
    for orientation in [Orientation::Horizontal, Orientation::Vertical] {
        assert_eq!(render_orientation(orientation), format!("{:?}", orientation));
    }
    assert_eq!(render_exif(Exif::Keep), "Keep");
    assert_eq!(render_crop(Crop::Box(1, 2, 30, 40), "", ""), "Box(1, 2, 30, 40)");
    assert_eq!(
        render_crop(Crop::Ratio(scalar(4.0), scalar(3.0)), "4.0", "3.0"),
        format!("Ratio({:?}, {:?})", 4.0f32, 3.0f32)
    );
}

#[test]
fn audit_lines() {
    assert_eq!(
        CmdBlur::new(1, scalar(0.5)).print("0.5"),
        format!("► {:02}. blur:\t\tsigma = {}", 1, 0.5f32)
    );
    assert_eq!(CmdBrighten::new(2, 3).print(), "► 02. brighten:\t\tvalue = 3");
    assert_eq!(CmdBrighten::new(2, -50).print(), "► 02. brighten:\t\tvalue = -50");
    assert_eq!(CmdContrast::new(3, scalar(0.8)).print("0.8"), "► 03. contrast:\tvalue = 0.8");
    assert_eq!(
        CmdCombine::new(4, String::from("logo.png"), BoxPosition::TopLeft(34, 56)).print(),
        "► 04. combine:\tposition = TopLeft(34, 56)"
    );
    assert_eq!(
        CmdCrop::new(5, Crop::Ratio(scalar(4.0), scalar(3.0))).print("4.0", "3.0"),
        "► 05. crop:\t\tRatio(4.0, 3.0)"
    );
    assert_eq!(
        CmdCrop::new(5, Crop::Box(0, 0, 10, 20)).print("", ""),
        "► 05. crop:\t\tBox(0, 0, 10, 20)"
    );
    assert_eq!(CmdExif::new(6, Exif::Keep).print(), "► 06. exif:\t\tKeep");
    assert_eq!(
        CmdFlip::new(7, Orientation::Horizontal).print(),
        "► 07. flip:\t\torientation = Horizontal"
    );
    assert_eq!(CmdHuerotate::new(8, 90).print(), "► 08. huerotate:\tdegree = 90");
    assert_eq!(CmdInvert::new(9).print(), "► 09. invert");
    assert_eq!(
        CmdResize::new(10, Resize::BoundingBox(400, 300)).print(),
        "► 10. resize:\t\tBoundingBox(400, 300)"
    );
    assert_eq!(
        CmdResizeFilter::new(11, Resize::BoundingBox(400, 300), ResampleFilter::Nearest).print(),
        "► 11. resize_filter:\tBoundingBox(400, 300)\tfilter: Nearest"
    );
    assert_eq!(
        CmdRotate::new(12, Rotation::Rotate90).print(),
        "► 12. rotate:\t\trotation = Rotate90"
    );
    assert_eq!(
        CmdText::new(13, String::from("(c) Thumbnailer"), BoxPosition::TopLeft(37, 28)).print(),
        "► 13. text:\t\tTopLeft(37, 28)\ttext: (c) Thumbnailer"
    );
    assert_eq!(
        CmdUnsharpen::new(14, scalar(0.3), 2).print("0.3"),
        "► 14. unsharpen:\tsigma = 0.3\t\tthreshold = 2"
    );
    assert_eq!(CmdInvert::new(123).print(), "► 123. invert");
}

#[test]
fn a_descriptor_prints_the_line_of_its_command() {
    let blur = Command::Blur(CmdBlur::new(3, scalar(5.8)));
    assert_eq!(blur.print("5.8", ""), "► 03. blur:\t\tsigma = 5.8");
    let crop = Command::Crop(CmdCrop::new(2, Crop::Ratio(scalar(16.0), scalar(9.0))));
    assert_eq!(crop.print("16.0", "9.0"), "► 02. crop:\t\tRatio(16.0, 9.0)");
    let invert = Command::Invert(CmdInvert::new(7));
    assert_eq!(invert.print("unused", "unused"), "► 07. invert");
    let unsharpen = Command::Unsharpen(CmdUnsharpen::new(1, scalar(1.5), -4));
    assert_eq!(
        unsharpen.print("1.5", "unused"),
        "► 01. unsharpen:\tsigma = 1.5\t\tthreshold = -4"
    );
}

fn position_of<C: CommandTrait>(command: &C) -> u32 {
    command.get_index()
}

fn call_of<C: CommandTrait>(command: &C) -> Call {
    command.execute()
}

#[test]
fn command_types_and_descriptors_share_one_trait() {
    assert_eq!(position_of(&CmdInvert::new(9)), 9);
    assert_eq!(position_of(&Command::Invert(CmdInvert::new(9))), 9);
    assert_eq!(call_of(&CmdHuerotate::new(8, 90)), Call::Huerotate(90));
    assert_eq!(call_of(&Command::Huerotate(CmdHuerotate::new(8, 90))), Call::Huerotate(90));
}

#[test]
fn every_audit_line_names_its_operation() {
    let lines = [
        (Command::Blur(CmdBlur::new(1, scalar(1.0))), "blur"),
        (Command::Brighten(CmdBrighten::new(1, 1)), "brighten"),
        (Command::Contrast(CmdContrast::new(1, scalar(1.0))), "contrast"),
        (
            Command::Combine(CmdCombine::new(1, String::from("a"), BoxPosition::TopLeft(0, 0))),
            "combine",
        ),
        (Command::Crop(CmdCrop::new(1, Crop::Box(0, 0, 1, 1))), "crop"),
        (Command::Exif(CmdExif::new(1, Exif::Keep)), "exif"),
        (Command::Flip(CmdFlip::new(1, Orientation::Vertical)), "flip"),
        (Command::Huerotate(CmdHuerotate::new(1, 1)), "huerotate"),
        (Command::Invert(CmdInvert::new(1)), "invert"),
        (Command::Resize(CmdResize::new(1, Resize::Width(1))), "resize"),
        (
            Command::ResizeFilter(CmdResizeFilter::new(
                1,
                Resize::Width(1),
                ResampleFilter::Nearest,
            )),
            "resize_filter",
        ),
        (Command::Rotate(CmdRotate::new(1, Rotation::Rotate180)), "rotate"),
        (Command::Text(CmdText::new(1, String::from("a"), BoxPosition::TopLeft(0, 0))), "text"),
        (Command::Unsharpen(CmdUnsharpen::new(1, scalar(1.0), 1)), "unsharpen"),
    ];
    for (command, name) in lines {
        let line = command.print("1", "1");
        let rest = line.strip_prefix("► 01. ").unwrap();
        let named = rest.split(|c| c == ':').next().unwrap();
        assert_eq!(named, name, "{}", line);
    }
}

#[test]
fn the_rotate_line() {
    assert_eq!(
        CmdRotate::new(12, Rotation::Rotate90).print(),
        "► 12. rotate:\t\trotation = Rotate90"
    );
    assert_eq!(
        Command::Rotate(CmdRotate::new(3, Rotation::Rotate270)).print("", ""),
        "► 03. rotate:\t\trotation = Rotate270"
    );
}
