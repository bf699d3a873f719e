use thumbnailer_cli::commands::{
    CmdBlur, CmdBrighten, CmdCrop, CmdInvert, CmdResize, CmdRotate, CmdText, Command, CommandTrait,
};
use thumbnailer_cli::directives::{read_commands, Directive, DirectiveKind, RawValue};
use thumbnailer_cli::pipeline::{build, Commands};
use thumbnailer_cli::presets::{expand, preset_names, FOUR, NINE, SIXTEEN, TEN, THREE};
use thumbnailer_cli::values::{BoxPosition, Crop, Resize, Rotation, Scalar};

fn scalar(value: f32) -> Scalar {
    Scalar::from_bits(value.to_bits())
}

fn raw(text: &str) -> RawValue {
    RawValue {
        text: String::from(text),
        scalar: text.parse::<f32>().ok().map(|value| Scalar::from_bits(value.to_bits())),
    }
}

fn directive(kind: DirectiveKind, index: u32, occurrences: u64, values: &[&str]) -> Directive {
    Directive { kind, index, occurrences, values: values.iter().map(|text| raw(text)).collect() }
}

fn positions(pipeline: &Commands) -> Vec<u32> {
    pipeline.commands.iter().map(|command| command.get_index()).collect()
}

#[test]
fn blur_then_brighten() {
    let directives = vec![
        directive(DirectiveKind::Blur, 3, 1, &["5.8"]),
        directive(DirectiveKind::Brighten, 5, 1, &["10"]),
    ];
    let pipeline = read_commands(&directives).unwrap();
    assert_eq!(
        pipeline.commands,
        vec![
            Command::Blur(CmdBlur::new(3, scalar(5.8))),
            Command::Brighten(CmdBrighten::new(5, 10)),
        ]
    );
}

#[test]
fn later_position_collected_first_still_runs_last() {
    let directives = vec![
        directive(DirectiveKind::Blur, 5, 1, &["5.8"]),
        directive(DirectiveKind::Brighten, 3, 1, &["10"]),
    ];
    let pipeline = read_commands(&directives).unwrap();
    assert_eq!(
        pipeline.commands,
        vec![
            Command::Brighten(CmdBrighten::new(3, 10)),
            Command::Blur(CmdBlur::new(5, scalar(5.8))),
        ]
    );
}

#[test]
fn quarter_turn_given_twice() {
    let directives = vec![directive(DirectiveKind::Rotate90, 1, 2, &[])];
    let pipeline = read_commands(&directives).unwrap();
    assert_eq!(pipeline.commands, vec![Command::Rotate(CmdRotate::new(1, Rotation::Rotate180))]);
}

#[test]
fn quarter_turn_given_four_times() {
    let directives = vec![directive(DirectiveKind::Rotate90, 1, 4, &[])];
    let pipeline = read_commands(&directives).unwrap();
    assert_eq!(pipeline.commands, vec![]);
}

#[test]
fn resize_with_zero_width_and_exact() {
    let directives = vec![directive(DirectiveKind::Resize, 1, 1, &["0", "500", "true"])];
    let pipeline = read_commands(&directives).unwrap();
    assert_eq!(pipeline.commands, vec![Command::Resize(CmdResize::new(1, Resize::Height(500)))]);
}

#[test]
fn preset_app_copyright_at_position_two() {
    let expected = vec![
        Command::Crop(CmdCrop::new(2, Crop::Ratio(scalar(4.0), scalar(3.0)))),
        Command::Resize(CmdResize::new(2, Resize::ExactBox(600, 450))),
        Command::Text(CmdText::new(
            2,
            String::from("(c) thumbnailer"),
            BoxPosition::BottomRight(580, 435),
        )),
    ];
    assert_eq!(expand("app_copyright", 2), expected);
    let directives = vec![directive(DirectiveKind::Preset, 2, 1, &["app_copyright"])];
    let pipeline = read_commands(&directives).unwrap();
    assert_eq!(pipeline.commands, expected);
    assert_eq!(positions(&pipeline), vec![2, 2, 2]);
}

#[test]
fn preset_full_hd() {
    assert_eq!(
        expand("full_hd", 7),
        vec![
            Command::Crop(CmdCrop::new(7, Crop::Ratio(scalar(16.0), scalar(9.0)))),
            Command::Resize(CmdResize::new(7, Resize::Height(1080))),
        ]
    );
}

#[test]
fn preset_background() {
    assert_eq!(
        expand("background", 4),
        vec![
            Command::Brighten(CmdBrighten::new(4, -50)),
            Command::Blur(CmdBlur::new(4, scalar(10.0))),
        ]
    );
}

#[test]
fn unknown_preset_stands_for_nothing() {
    assert_eq!(expand("sepia", 4), vec![]);
    assert_eq!(expand("", 4), vec![]);
    assert_eq!(expand("app_copyrigh", 4), vec![]);
    assert_eq!(expand("App_copyright", 4), vec![]);
}

#[test]
fn expansion_is_the_same_every_time() {
    for name in ["app_copyright", "full_hd", "background", "other"] {
        for index in [0u32, 2, 77, u32::MAX] {
            assert_eq!(expand(name, index), expand(name, index));
            assert!(expand(name, index).iter().all(|command| command.get_index() == index));
        }
    }
}

#[test]
fn built_positions_never_decrease() {
    let mut raw = Vec::new();
    let mut seed: u32 = 12345;
    for _ in 0..200 {
        seed = seed.wrapping_mul(1664525).wrapping_add(1013904223);
        raw.push(Command::Invert(CmdInvert::new((seed >> 16) % 17)));
    }
    let pipeline = build(raw);
    assert_eq!(pipeline.commands.len(), 200);
    let found = positions(&pipeline);
    assert!(found.windows(2).all(|pair| pair[0] <= pair[1]));
}

#[test]
fn equal_positions_keep_their_arrival_order() {
    let mut raw = Vec::new();
    let mut seed: u32 = 99;
    for arrival in 0..300 {
        seed = seed.wrapping_mul(1664525).wrapping_add(1013904223);
        raw.push(Command::Brighten(CmdBrighten::new((seed >> 16) % 7, arrival)));
    }
    let mut expected = raw.clone();
    expected.sort_by_key(|command| command.get_index());
    let pipeline = build(raw);
    assert_eq!(pipeline.commands, expected);
}

#[test]
fn build_of_nothing_is_nothing() {
    assert_eq!(build(Vec::new()).commands, vec![]);
}

#[test]
fn build_keeps_every_descriptor() {
    let raw = vec![
        Command::Invert(CmdInvert::new(3)),
        Command::Invert(CmdInvert::new(3)),
        Command::Invert(CmdInvert::new(1)),
        Command::Invert(CmdInvert::new(3)),
    ];
    let pipeline = build(raw);
    assert_eq!(positions(&pipeline), vec![1, 3, 3, 3]);
}

#[test]
fn a_preset_between_other_directives_keeps_its_declared_order() {
    let directives = vec![
        directive(DirectiveKind::Blur, 9, 1, &["1.5"]),
        directive(DirectiveKind::Invert, 1, 1, &[]),
        directive(DirectiveKind::Preset, 4, 1, &["app_copyright"]),
    ];
    let pipeline = read_commands(&directives).unwrap();
    assert_eq!(
        pipeline.commands,
        vec![
            Command::Invert(CmdInvert::new(1)),
            Command::Crop(CmdCrop::new(4, Crop::Ratio(scalar(4.0), scalar(3.0)))),
            Command::Resize(CmdResize::new(4, Resize::ExactBox(600, 450))),
            Command::Text(CmdText::new(
                4,
                String::from("(c) thumbnailer"),
                BoxPosition::BottomRight(580, 435),
            )),
            Command::Blur(CmdBlur::new(9, scalar(1.5))),
        ]
    );
}

#[test]
fn preset_numbers_are_the_bit_patterns_of_their_values() {
    assert_eq!(THREE, 3.0f32.to_bits());
    assert_eq!(FOUR, 4.0f32.to_bits());
    assert_eq!(NINE, 9.0f32.to_bits());
    assert_eq!(TEN, 10.0f32.to_bits());
    assert_eq!(SIXTEEN, 16.0f32.to_bits());
}

#[test]
fn preset_names_are_the_names_that_expand() {
    assert_eq!(preset_names(), vec!["app_copyright", "full_hd", "background"]);
    for name in preset_names() {
        assert!(!expand(name, 1).is_empty());
    }
}
