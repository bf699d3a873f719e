use clap::{App, Arg, ArgMatches, SubCommand};
use thumbnailer_cli::arguments::{read_directives, Unplaced};
use thumbnailer_cli::commands::{
    CmdBlur, CmdBrighten, CmdCrop, CmdResize, CmdRotate, CmdText, Command, CommandTrait,
};
use thumbnailer_cli::directives::{
    directive_kinds, read_commands, Directive, DirectiveKind, RawValue,
};
use thumbnailer_cli::pipeline::Commands;
use thumbnailer_cli::values::{BoxPosition, Crop, Resize, Rotation, Scalar};

fn slots(kind: DirectiveKind) -> u64 {
    let mut slots = 0;
    while !kind.parameter(slots as usize).is_empty() {
        slots += 1;
    }
    slots
}

fn matches_of(line: &[&'static str]) -> ArgMatches<'static> {
    let mut app = App::new("thumbnailer_cli");
    for kind in directive_kinds() {
        let mut arg = Arg::with_name(kind.name()).long(kind.name());
        if slots(kind) > 0 {
            arg = arg.takes_value(true).number_of_values(slots(kind)).allow_hyphen_values(true);
        }
        if kind == DirectiveKind::Rotate90 {
            arg = arg.short("r").multiple(true);
        }
        app = app.arg(arg);
    }
    app.get_matches_from(line.to_vec())
}

fn text(text: &str) -> RawValue {
    RawValue { text: String::from(text), scalar: None }
}

fn scalar(value: f32) -> Scalar {
    Scalar::from_bits(value.to_bits())
}

fn pipeline_of(line: &[&'static str]) -> Commands {
    let mut directives = read_directives(&matches_of(line)).unwrap();
    for directive in directives.iter_mut() {
        for value in directive.values.iter_mut() {
            value.scalar =
                value.text.parse::<f32>().ok().map(|number| Scalar::from_bits(number.to_bits()));
        }
    }
    read_commands(&directives).unwrap()
}

#[test]
fn arguments_become_directives_with_position_and_values() {
    let matches = matches_of(&["thumbnailer_cli", "--blur", "5.8", "--brighten", "10"]);
    assert_eq!(
        read_directives(&matches),
        Ok(vec![
            Directive {
                kind: DirectiveKind::Blur,
                index: 2,
                occurrences: 1,
                values: vec![text("5.8")],
            },
            Directive {
                kind: DirectiveKind::Brighten,
                index: 4,
                occurrences: 1,
                values: vec![text("10")],
            },
        ])
    );
}

#[test]
fn directives_come_in_collection_order_whatever_the_command_line_order() {
    let matches = matches_of(&["thumbnailer_cli", "--invert", "--brighten", "10", "--blur", "1"]);
    let directives = read_directives(&matches).unwrap();
    let found: Vec<(DirectiveKind, u32)> =
        directives.iter().map(|directive| (directive.kind, directive.index)).collect();
    assert_eq!(
        found,
        vec![(DirectiveKind::Blur, 5), (DirectiveKind::Brighten, 3), (DirectiveKind::Invert, 1)]
    );
}

#[test]
fn a_flag_has_no_values() {
    let matches = matches_of(&["thumbnailer_cli", "--exif"]);
    assert_eq!(
        read_directives(&matches),
        Ok(vec![Directive {
            kind: DirectiveKind::Exif,
            index: 1,
            occurrences: 1,
            values: vec![],
        }])
    );
}

#[test]
fn several_values_keep_their_order() {
    let matches = matches_of(&["thumbnailer_cli", "--crop_box", "1", "2", "30", "40"]);
    assert_eq!(
        read_directives(&matches),
        Ok(vec![Directive {
            kind: DirectiveKind::CropBox,
            index: 2,
            occurrences: 1,
            values: vec![text("1"), text("2"), text("30"), text("40")],
        }])
    );
}

#[test]
fn a_repeated_flag_counts_its_occurrences() {
    let matches = matches_of(&["thumbnailer_cli", "-r", "-r", "-r"]);
    assert_eq!(
        read_directives(&matches),
        Ok(vec![Directive {
            kind: DirectiveKind::Rotate90,
            index: 1,
            occurrences: 3,
            values: vec![],
        }])
    );
}

#[test]
fn no_argument_gives_no_directive() {
    assert_eq!(read_directives(&matches_of(&["thumbnailer_cli"])), Ok(vec![]));
}

#[test]
fn blur_at_three_and_brighten_at_five() {
    let pipeline = pipeline_of(&["thumbnailer_cli", "--exif", "--blur", "5.8", "--brighten", "10"]);
    assert_eq!(
        pipeline.commands[1..].to_vec(),
        vec![
            Command::Blur(CmdBlur::new(3, scalar(5.8))),
            Command::Brighten(CmdBrighten::new(5, 10)),
        ]
    );
}

#[test]
fn rotate90_given_twice_at_position_one() {
    let pipeline = pipeline_of(&["thumbnailer_cli", "-r", "-r"]);
    assert_eq!(pipeline.commands, vec![Command::Rotate(CmdRotate::new(1, Rotation::Rotate180))]);
}

#[test]
fn rotate90_given_four_times_at_position_one() {
    let pipeline = pipeline_of(&["thumbnailer_cli", "-r", "-r", "-r", "-r"]);
    assert_eq!(pipeline.commands, vec![]);
}

#[test]
fn resize_zero_width_exact() {
    let pipeline = pipeline_of(&["thumbnailer_cli", "--resize", "0", "500", "true"]);
    assert_eq!(pipeline.commands, vec![Command::Resize(CmdResize::new(2, Resize::Height(500)))]);
}

#[test]
fn preset_app_copyright_given_at_position_two() {
    let pipeline = pipeline_of(&["thumbnailer_cli", "--preset", "app_copyright"]);
    assert_eq!(
        pipeline.commands,
        vec![
            Command::Crop(CmdCrop::new(2, Crop::Ratio(scalar(4.0), scalar(3.0)))),
            Command::Resize(CmdResize::new(2, Resize::ExactBox(600, 450))),
            Command::Text(CmdText::new(
                2,
                String::from("(c) thumbnailer"),
                BoxPosition::BottomRight(580, 435),
            )),
        ]
    );
}

#[test]
fn operations_run_in_command_line_order() {
    let pipeline = pipeline_of(&[
        "thumbnailer_cli",
        "--unsharpen",
        "0.5",
        "-3",
        "--preset",
        "background",
        "--blur",
        "2",
    ]);
    let positions: Vec<u32> = pipeline.commands.iter().map(|command| command.get_index()).collect();
    assert_eq!(positions, vec![2, 5, 5, 7]);
    assert_eq!(pipeline.commands[1], Command::Brighten(CmdBrighten::new(5, -50)));
    assert_eq!(pipeline.commands[2], Command::Blur(CmdBlur::new(5, scalar(10.0))));
    assert_eq!(pipeline.commands[3], Command::Blur(CmdBlur::new(7, scalar(2.0))));
}

#[test]
fn an_argument_present_by_default_is_read_with_no_occurrence() {
    let matches = App::new("thumbnailer_cli")
        .arg(Arg::with_name("invert").long("invert"))
        .arg(Arg::with_name("blur").long("blur").takes_value(true).default_value("1.5"))
        .get_matches_from(vec!["thumbnailer_cli", "--invert"]);
    assert_eq!(
        read_directives(&matches),
        Ok(vec![
            Directive {
                kind: DirectiveKind::Blur,
                index: 2,
                occurrences: 0,
                values: vec![text("1.5")],
            },
            Directive { kind: DirectiveKind::Invert, index: 1, occurrences: 1, values: vec![] },
        ])
    );
}

#[test]
fn a_name_that_is_present_without_a_position_is_reported() {
    let matches = App::new("thumbnailer_cli")
        .arg(Arg::with_name("blur").long("blur").takes_value(true))
        .subcommand(SubCommand::with_name("invert"))
        .get_matches_from(vec!["thumbnailer_cli", "--blur", "2", "invert"]);
    assert_eq!(read_directives(&matches), Err(Unplaced { kind: DirectiveKind::Invert }));
}
