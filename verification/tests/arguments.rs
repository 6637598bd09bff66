use notty_encoding::args::{
    Area, Argument, Color, Coords, Direction, InputSettings, MediaAlignment, MediaPosition,
    Movement, Region, Style,
};
use std::fmt::Debug;

fn area_cases() -> Vec<(Area, &'static str)> {
    vec![
        (Area::CursorCell, "1"),
        (Area::CursorRow, "2"),
        (Area::CursorColumn, "3"),
        (Area::CursorTo(Movement::To(Direction::Up, 2, false)), "4.2.1.2.0"),
        (Area::CursorBound(Coords { x: 0, y: 0 }), "5.0.0"),
        (Area::WholeScreen, "6"),
        (Area::Bound(Region { left: 0, top: 0, right: 0x100, bottom: 0x100 }), "6.0.0.100.100"),
        (Area::Rows(0xff, 0xfff), "7.ff.fff"),
        (Area::Columns(0, 0x10), "8.0.10"),
        (Area::BelowCursor(true), "9.1"),
    ]
}

fn movement_cases() -> Vec<(Movement, &'static str)> {
    vec![
        (Movement::Position(Coords { x: 0, y: 0 }), "1.0.0"),
        (Movement::To(Direction::Up, 0x100, false), "2.1.100.0"),
        (Movement::ToEdge(Direction::Up), "3.1"),
        (Movement::To(Direction::Down, 0x1b, false), "2.2.1b.0"),
        (Movement::ToEdge(Direction::Down), "3.2"),
        (Movement::To(Direction::Left, 2, false), "2.3.2.0"),
        (Movement::ToEdge(Direction::Left), "3.3"),
        (Movement::To(Direction::Right, 1, true), "2.4.1.1"),
        (Movement::ToEdge(Direction::Right), "3.4"),
        (Movement::IndexTo(Direction::Up, 1), "4.1.1"),
        (Movement::IndexTo(Direction::Down, 2), "4.2.2"),
        (Movement::IndexTo(Direction::Left, 0xfff), "4.3.fff"),
        (Movement::IndexTo(Direction::Right, 0x10), "4.4.10"),
        (Movement::Tab(Direction::Left, 1, false), "5.3.1.0"),
        (Movement::Tab(Direction::Right, 6, false), "5.4.6.0"),
        (Movement::PreviousLine(1), "6.1.1"),
        (Movement::NextLine(0xf), "6.f"),
        (Movement::Column(0), "7.0"),
        (Movement::Row(1), "8.1"),
        (Movement::ToBeginning, "9.1"),
        (Movement::ToEnd, "9"),
    ]
}

fn style_cases() -> Vec<(Style, &'static str)> {
    vec![
        (Style::Underline(1), "1.1"),
        (Style::Bold(true), "2.1"),
        (Style::Italic(false), "3.0"),
        (Style::Blink(false), "4.0"),
        (Style::InvertColors(false), "5.0"),
        (Style::Strikethrough(true), "6.1"),
        (Style::Opacity(0x40), "7.40"),
        (Style::FgColor(Color::True(0, 1, 0x19)), "8.2.0.1.19"),
        (Style::BgColor(Color::True(0xff, 0xfe, 0xf)), "9.2.ff.fe.f"),
        (Style::FgColor(Color::Default), "8.0"),
        (Style::FgColor(Color::Palette(7)), "8.1.7"),
        (Style::BgColor(Color::Default), "9.0"),
        (Style::BgColor(Color::Palette(0xf)), "9.1.f"),
    ]
}

fn run_test<T: Argument + Debug>(strings: &str, args: &[T]) {
    for (s, &arg) in strings.split(";").zip(args) {
        assert_eq!(T::decode(Some(s), None), Some(arg));
        assert_eq!(arg.encode(), s);
    }
}

#[test]
fn argument_area_argument() {
    for (area, arg) in area_cases() {
        assert_eq!(Area::decode(Some(arg), None), Some(area));
        assert_eq!(area.encode(), arg);
    }
}

#[test]
fn argument_bool_argument() {
    run_test("0;1", &[false, true]);
}

#[test]
fn argument_coords_argument() {
    run_test("1.2;3.4", &[Coords { x: 1, y: 2 }, Coords { x: 3, y: 4 }]);
}

#[test]
fn argument_direction_argument() {
    run_test("1;2;3;4", &[Direction::Up, Direction::Down, Direction::Left, Direction::Right]);
}

#[test]
fn argument_input_settings_argument() {
    run_test("1;2", &[InputSettings::Ansi(false), InputSettings::Notty(())]);
}

#[test]
fn argument_media_align_argument() {
    run_test(
        "1;2;3",
        &[MediaAlignment::LeftTop, MediaAlignment::Center, MediaAlignment::RightBottom],
    );
}

#[test]
fn argument_media_pos_argument() {
    run_test(
        "1.2.3;4;5",
        &[
            MediaPosition::Display(MediaAlignment::Center, MediaAlignment::RightBottom),
            MediaPosition::Stretch,
            MediaPosition::Tile,
        ],
    );
}

#[test]
fn argument_movement_argument() {
    for (movement, arg) in movement_cases() {
        assert_eq!(Movement::decode(Some(arg), None), Some(movement));
        assert_eq!(movement.encode(), arg);
    }
}

#[test]
fn argument_region_argument() {
    run_test("0.1.2.3", &[Region::new(0, 1, 2, 3)]);
}

#[test]
fn mod_area_argument() {
    for (area, arg) in area_cases() {
        assert_eq!(Area::decode(Some(arg), None), Some(area));
        assert_eq!(area.encode(), arg);
    }
}

#[test]
fn mod_bool_argument() {
    run_test("0;1", &[false, true]);
}

#[test]
fn mod_color_argument() {
    run_test("2.0.1.2;2.3.4.5", &[Color::True(0, 1, 2), Color::True(3, 4, 5)]);
}

#[test]
fn mod_coords_argument() {
    run_test("1.2;3.4", &[Coords { x: 1, y: 2 }, Coords { x: 3, y: 4 }]);
}

#[test]
fn mod_direction_argument() {
    run_test("1;2;3;4", &[Direction::Up, Direction::Down, Direction::Left, Direction::Right]);
}

#[test]
fn mod_input_settings_argument() {
    run_test("1;2", &[InputSettings::Ansi(false), InputSettings::Notty(())]);
}

#[test]
fn mod_media_align_argument() {
    run_test(
        "1;2;3",
        &[MediaAlignment::LeftTop, MediaAlignment::Center, MediaAlignment::RightBottom],
    );
}

#[test]
fn mod_media_pos_argument() {
    run_test(
        "1.2.3;4;5",
        &[
            MediaPosition::Display(MediaAlignment::Center, MediaAlignment::RightBottom),
            MediaPosition::Stretch,
            MediaPosition::Tile,
        ],
    );
}

#[test]
fn mod_movement_argument() {
    for (movement, arg) in movement_cases() {
        assert_eq!(Movement::decode(Some(arg), None), Some(movement));
        assert_eq!(movement.encode(), arg);
    }
}

#[test]
fn mod_region_argument() {
    run_test("0.1.2.3", &[Region::new(0, 1, 2, 3)]);
}

#[test]
fn mod_style_argument() {
    for (style, arg) in style_cases() {
        assert_eq!(Style::decode(Some(arg), None), Some(style));
        assert_eq!(&style.encode(), arg);
    }
}
