use notty_encoding::args::{
    Area, Argument, BufferSettings, CodeGroup, Color, ConfigStyle, Coords, Direction,
    EchoSettings, InputSettings, MediaAlignment, MediaPosition, Movement, Region, ResizeRule,
    SaveGrid, SplitKind, Style, Tokens,
};
use notty_encoding::token::{parse, push_hex, render_tokens};
use std::fmt::Debug;

fn round_trips<T: Argument + Debug>(values: &[T]) {
    for &v in values {
        let text = v.encode();
        assert_eq!(T::decode(Some(text.as_str()), None), Some(v), "{}", text);
        assert_eq!(T::decode(Some(text.as_str()), Some(values[0])), Some(v), "{}", text);
    }
}

fn defaults<T: Argument + Debug>(values: &[T]) {
    assert_eq!(T::decode(None, None), None);
    for &v in values {
        assert_eq!(T::decode(None, Some(v)), Some(v));
    }
}

fn echo() -> EchoSettings {
    EchoSettings { lerase: 0x15, lnext: 0x16, werase: 0x17 }
}

fn buffer() -> BufferSettings {
    BufferSettings { intr: 3, quit: 0x1c, susp: 0x1a, eol1: 0xa, eol2: 0xd, eof: 4 }
}

#[test]
fn hex_tokens_are_written_in_lower_case() {
    let mut s = String::from("x");
    push_hex(&mut s, 0);
    push_hex(&mut s, 0xabcdef);
    push_hex(&mut s, u64::MAX);
    assert_eq!(s, "x0abcdefffffffffffffffff");
    assert_eq!(render_tokens(&vec![]), "");
    assert_eq!(render_tokens(&vec![0]), "0");
    assert_eq!(render_tokens(&vec![10, 0, 255, 4096]), "a.0.ff.1000");
}

#[test]
fn token_text_is_parsed_piece_by_piece() {
    assert_eq!(parse("0"), Some(vec![0]));
    assert_eq!(parse("a.0.ff.1000"), Some(vec![10, 0, 255, 4096]));
    assert_eq!(parse("00ff.ABC.aBc"), Some(vec![255, 0xabc, 0xabc]));
    assert_eq!(parse("ffffffffffffffff"), Some(vec![u64::MAX]));
    assert_eq!(parse("0ffffffffffffffff"), Some(vec![u64::MAX]));
}

#[test]
fn malformed_token_text_has_no_tokens() {
    for text in ["", ".", "1.", ".1", "1..2", "g", "1.x.2", "+1", "-1", "0x1", " 1", "1 ", "1;2"] {
        assert_eq!(parse(text), None, "{:?}", text);
    }
    assert_eq!(parse("10000000000000000"), None);
    assert_eq!(parse("1.fffffffffffffffff"), None);
    assert_eq!(parse("1.\u{e9}"), None);
    assert_eq!(parse("\u{ff11}"), None);
}

#[test]
fn malformed_text_decodes_to_nothing_whatever_the_default() {
    let d = Some(Direction::Up);
    assert_eq!(Direction::decode(Some("zz"), d), None);
    assert_eq!(Direction::decode(Some(""), d), None);
    assert_eq!(Direction::decode(Some("1."), d), None);
    assert_eq!(Area::decode(Some("7.ff.g"), Some(Area::CursorCell)), None);
    assert_eq!(u64::decode(Some("10000000000000000"), Some(1)), None);
}

#[test]
fn absent_text_decodes_to_the_default() {
    defaults(&[false, true]);
    defaults(&[0u32, 7, u32::MAX]);
    defaults(&[0u64, u64::MAX]);
    defaults(&[Coords { x: 1, y: 2 }]);
    defaults(&[Direction::Up, Direction::Right]);
    defaults(&[Area::WholeScreen, Area::Rows(1, 2)]);
    defaults(&[Color::Default, Color::True(1, 2, 3)]);
    defaults(&[ResizeRule::Percentage, ResizeRule::MaxRightBottom]);
    defaults(&[SaveGrid::Left, SaveGrid::Right]);
    defaults(&[SplitKind::Horizontal(3)]);
    defaults(&[MediaAlignment::Center]);
    defaults(&[MediaPosition::Fill]);
    defaults(&[Movement::ToEnd, Movement::Row(3)]);
    defaults(&[Region::new(0, 0, 1, 1)]);
    defaults(&[buffer()]);
    defaults(&[echo()]);
    defaults(&[InputSettings::Ansi(true), InputSettings::Notty(())]);
    defaults(&[Style::Bold(true), Style::Underline(9)]);
    defaults(&[ConfigStyle::Plain]);
    defaults(&[CodeGroup::Macro]);
}

#[test]
fn every_kind_of_value_round_trips() {
    round_trips(&[false, true]);
    round_trips(&[0u32, 1, 0xabc, u32::MAX]);
    round_trips(&[0u64, 1, 0xabc, u64::MAX]);
    round_trips(&[Coords { x: 0, y: 0 }, Coords { x: u32::MAX, y: 17 }]);
    round_trips(&[Direction::Up, Direction::Down, Direction::Left, Direction::Right]);
    round_trips(&[ResizeRule::Percentage, ResizeRule::MaxLeftTop, ResizeRule::MaxRightBottom]);
    round_trips(&[SaveGrid::Left, SaveGrid::Right]);
    round_trips(&[SplitKind::Horizontal(0), SplitKind::Vertical(0xffff), SplitKind::Vertical(1)]);
    round_trips(&[MediaAlignment::LeftTop, MediaAlignment::Center, MediaAlignment::RightBottom]);
    round_trips(&[
        MediaPosition::Display(MediaAlignment::LeftTop, MediaAlignment::LeftTop),
        MediaPosition::Display(MediaAlignment::RightBottom, MediaAlignment::Center),
        MediaPosition::Fill,
        MediaPosition::Fit,
        MediaPosition::Stretch,
        MediaPosition::Tile,
    ]);
    round_trips(&[
        Movement::Position(Coords { x: 9, y: 0x7fff }),
        Movement::To(Direction::Left, 0, true),
        Movement::ToEdge(Direction::Down),
        Movement::IndexTo(Direction::Up, u32::MAX),
        Movement::Tab(Direction::Right, 4, true),
        Movement::Column(1),
        Movement::Row(0),
        Movement::PreviousLine(0),
        Movement::NextLine(1),
        Movement::NextLine(0),
        Movement::ToBeginning,
        Movement::ToEnd,
    ]);
    round_trips(&[Region::new(0, 1, 2, 3), Region::new(0, 0, u32::MAX, u32::MAX)]);
    round_trips(&[
        Area::CursorCell,
        Area::CursorRow,
        Area::CursorColumn,
        Area::CursorTo(Movement::NextLine(3)),
        Area::CursorTo(Movement::ToEnd),
        Area::CursorBound(Coords { x: 4, y: 5 }),
        Area::WholeScreen,
        Area::Bound(Region::new(0, 10, 100, 100)),
        Area::Rows(3, 1),
        Area::Columns(0, 0),
        Area::BelowCursor(false),
        Area::BelowCursor(true),
    ]);
    round_trips(&[Color::Default, Color::Palette(0), Color::Palette(255), Color::True(0, 128, 255)]);
    round_trips(&[buffer()]);
    round_trips(&[echo()]);
    round_trips(&[
        InputSettings::Ansi(false),
        InputSettings::Ansi(true),
        InputSettings::Notty(()),
        InputSettings::LineBufferEcho(echo(), buffer()),
        InputSettings::ScreenEcho(echo()),
    ]);
    round_trips(&[
        Style::Underline(0),
        Style::Underline(1),
        Style::Underline(2),
        Style::Bold(false),
        Style::Italic(true),
        Style::Blink(true),
        Style::InvertColors(true),
        Style::Strikethrough(false),
        Style::Opacity(0),
        Style::Opacity(255),
        Style::FgColor(Color::Palette(3)),
        Style::BgColor(Color::True(1, 2, 3)),
        Style::FgColorCfg(None),
        Style::FgColorCfg(Some(7)),
        Style::BgColorCfg(None),
        Style::BgColorCfg(Some(0xf)),
        Style::Configured(ConfigStyle::Plain),
        Style::Configured(ConfigStyle::CodeGroup(CodeGroup::Todo)),
    ]);
    round_trips(&[ConfigStyle::Plain, ConfigStyle::CodeGroup(CodeGroup::Special)]);
    round_trips(&[
        CodeGroup::Keyword,
        CodeGroup::Identifier,
        CodeGroup::Type,
        CodeGroup::Literal,
        CodeGroup::Macro,
        CodeGroup::Comment,
        CodeGroup::Documentation,
        CodeGroup::Error,
        CodeGroup::Todo,
        CodeGroup::Special,
    ]);
}

#[test]
fn observed_encodings() {
    assert_eq!(Movement::To(Direction::Up, 0x100, false).encode(), "2.1.100.0");
    assert_eq!(Style::Opacity(0x40).encode(), "7.40");
    assert_eq!(Style::FgColor(Color::True(0, 1, 0x19)).encode(), "8.2.0.1.19");
    assert_eq!(Area::Rows(0xff, 0xfff).encode(), "7.ff.fff");
    let bound = Area::Bound(Region { left: 0, top: 10, right: 100, bottom: 100 });
    assert_eq!(bound.encode(), "6.0.a.64.64");
    assert_eq!(Area::decode(Some("6.0.a.64.64"), None), Some(bound));
}

#[test]
fn style_and_settings_encodings() {
    assert_eq!(Style::Configured(ConfigStyle::Plain).encode(), "a.1");
    assert_eq!(Style::Configured(ConfigStyle::CodeGroup(CodeGroup::Special)).encode(), "a.2.a");
    assert_eq!(Style::BgColorCfg(None).encode(), "b");
    assert_eq!(Style::BgColorCfg(Some(0xf)).encode(), "b.f");
    assert_eq!(Style::FgColorCfg(None).encode(), "c");
    assert_eq!(Style::FgColorCfg(Some(7)).encode(), "c.7");
    assert_eq!(Style::Underline(3).encode(), "1.3");
    assert_eq!(CodeGroup::Keyword.encode(), "1");
    assert_eq!(CodeGroup::Comment.encode(), "6");
    assert_eq!(buffer().encode(), "3.1c.1a.a.d.4");
    assert_eq!(echo().encode(), "15.16.17");
    assert_eq!(
        InputSettings::LineBufferEcho(echo(), buffer()).encode(),
        "3.15.16.17.3.1c.1a.a.d.4"
    );
    assert_eq!(InputSettings::ScreenEcho(echo()).encode(), "4.15.16.17");
    assert_eq!(InputSettings::Ansi(false).encode(), "1");
    assert_eq!(InputSettings::Ansi(true).encode(), "1.1");
    assert_eq!(InputSettings::decode(Some("1"), None), Some(InputSettings::Ansi(false)));
    assert_eq!(InputSettings::decode(Some("1.0"), None), Some(InputSettings::Ansi(false)));
    assert_eq!(InputSettings::decode(Some("1.1"), None), Some(InputSettings::Ansi(true)));
    assert_eq!(InputSettings::decode(Some("1.7"), None), Some(InputSettings::Ansi(false)));
    assert_eq!(SplitKind::Horizontal(0x20).encode(), "0.20");
    assert_eq!(SplitKind::Vertical(1).encode(), "1.1");
    assert_eq!(ResizeRule::MaxRightBottom.encode(), "2");
    assert_eq!(SaveGrid::Right.encode(), "1");
    assert_eq!(Color::Default.encode(), "0");
    assert_eq!(Color::Palette(0x10).encode(), "1.10");
    assert_eq!(0x1234u32.encode(), "1234");
    assert_eq!(u64::MAX.encode(), "ffffffffffffffff");
}

#[test]
fn missing_flags_and_counts_take_their_defaults() {
    assert_eq!(Style::decode(Some("1"), None), Some(Style::Underline(1)));
    assert_eq!(Style::decode(Some("2"), None), Some(Style::Bold(true)));
    assert_eq!(Style::decode(Some("3"), None), Some(Style::Italic(true)));
    assert_eq!(Style::decode(Some("4.7"), None), Some(Style::Blink(true)));
    assert_eq!(Style::decode(Some("5"), None), Some(Style::InvertColors(true)));
    assert_eq!(Style::decode(Some("6"), None), Some(Style::Strikethrough(true)));
    assert_eq!(Style::decode(Some("7"), None), Some(Style::Opacity(0xff)));
    assert_eq!(Area::decode(Some("9"), None), Some(Area::BelowCursor(true)));
    assert_eq!(Area::decode(Some("9.0"), None), Some(Area::BelowCursor(false)));
    let right = Direction::Right;
    assert_eq!(Movement::decode(Some("1"), None), Some(Movement::Position(Coords { x: 0, y: 0 })));
    assert_eq!(Movement::decode(Some("1.5"), None), Some(Movement::Position(Coords { x: 0, y: 0 })));
    assert_eq!(Movement::decode(Some("2"), None), Some(Movement::To(right, 1, true)));
    assert_eq!(Movement::decode(Some("2.9.3"), None), Some(Movement::To(right, 3, true)));
    assert_eq!(
        Movement::decode(Some("2.1.5"), None),
        Some(Movement::To(Direction::Up, 5, true))
    );
    assert_eq!(
        Movement::decode(Some("2.1.5.0"), None),
        Some(Movement::To(Direction::Up, 5, false))
    );
    assert_eq!(
        Movement::decode(Some("2.1.5.9"), None),
        Some(Movement::To(Direction::Up, 5, true))
    );
    assert_eq!(Movement::decode(Some("3"), None), Some(Movement::ToEdge(right)));
    assert_eq!(Movement::decode(Some("4.1"), None), Some(Movement::IndexTo(Direction::Up, 1)));
    assert_eq!(Movement::decode(Some("5"), None), Some(Movement::Tab(right, 1, true)));
    assert_eq!(
        Movement::decode(Some("5.3.2"), None),
        Some(Movement::Tab(Direction::Left, 2, true))
    );
    assert_eq!(
        Movement::decode(Some("5.3.2.0"), None),
        Some(Movement::Tab(Direction::Left, 2, false))
    );
    assert_eq!(Movement::decode(Some("6"), None), Some(Movement::NextLine(1)));
    assert_eq!(Movement::decode(Some("6.4.0"), None), Some(Movement::NextLine(4)));
    assert_eq!(Movement::decode(Some("6.4.1"), None), Some(Movement::PreviousLine(4)));
    assert_eq!(Movement::decode(Some("7"), None), Some(Movement::Column(0)));
    assert_eq!(Movement::decode(Some("8"), None), Some(Movement::Row(0)));
    assert_eq!(Movement::decode(Some("9.0"), None), Some(Movement::ToEnd));
    assert_eq!(
        MediaPosition::decode(Some("1"), None),
        Some(MediaPosition::Display(MediaAlignment::LeftTop, MediaAlignment::RightBottom))
    );
    assert_eq!(
        MediaPosition::decode(Some("1.3"), None),
        Some(MediaPosition::Display(MediaAlignment::RightBottom, MediaAlignment::RightBottom))
    );
}

#[test]
fn unknown_tags_fall_back_to_the_default() {
    assert_eq!(Direction::decode(Some("5"), None), None);
    assert_eq!(Direction::decode(Some("0"), Some(Direction::Left)), Some(Direction::Left));
    assert_eq!(bool::decode(Some("2"), Some(true)), Some(true));
    assert_eq!(Area::decode(Some("a"), Some(Area::CursorRow)), Some(Area::CursorRow));
    assert_eq!(Area::decode(Some("0"), None), None);
    assert_eq!(Movement::decode(Some("a.1"), Some(Movement::ToEnd)), Some(Movement::ToEnd));
    assert_eq!(Color::decode(Some("3"), Some(Color::Palette(1))), Some(Color::Palette(1)));
    assert_eq!(Style::decode(Some("d"), Some(Style::Bold(false))), Some(Style::Bold(false)));
    assert_eq!(Style::decode(Some("0"), None), None);
    assert_eq!(ResizeRule::decode(Some("3"), Some(ResizeRule::Percentage)), Some(ResizeRule::Percentage));
    assert_eq!(SaveGrid::decode(Some("2"), Some(SaveGrid::Left)), Some(SaveGrid::Left));
    assert_eq!(MediaAlignment::decode(Some("4"), None), None);
    assert_eq!(MediaPosition::decode(Some("6"), Some(MediaPosition::Fit)), Some(MediaPosition::Fit));
    assert_eq!(InputSettings::decode(Some("5"), Some(InputSettings::Notty(()))), Some(InputSettings::Notty(())));
    assert_eq!(ConfigStyle::decode(Some("3"), Some(ConfigStyle::Plain)), Some(ConfigStyle::Plain));
    assert_eq!(CodeGroup::decode(Some("b"), Some(CodeGroup::Type)), Some(CodeGroup::Type));
    assert_eq!(Coords::decode(Some("1"), Some(Coords { x: 8, y: 9 })), Some(Coords { x: 8, y: 9 }));
    assert_eq!(Region::decode(Some("1.2.3"), Some(Region::new(0, 0, 1, 1))), Some(Region::new(0, 0, 1, 1)));
    assert_eq!(echo().encode(), "15.16.17");
    assert_eq!(EchoSettings::decode(Some("1.2"), Some(echo())), Some(echo()));
    assert_eq!(BufferSettings::decode(Some("1.2.3.4.5"), Some(buffer())), Some(buffer()));
}

#[test]
fn known_tags_with_missing_fields_give_nothing() {
    let split = Some(SplitKind::Vertical(9));
    assert_eq!(SplitKind::decode(Some("0"), split), None);
    assert_eq!(SplitKind::decode(Some("1"), split), None);
    assert_eq!(SplitKind::decode(Some("2.5"), split), None);
    assert_eq!(SplitKind::decode(Some("2"), split), None);
    let color = Some(Color::Default);
    assert_eq!(Color::decode(Some("1"), color), None);
    assert_eq!(Color::decode(Some("2.1.2"), color), None);
    let style = Some(Style::Bold(true));
    assert_eq!(Style::decode(Some("1.3"), style), None);
    assert_eq!(Style::decode(Some("8"), style), None);
    assert_eq!(Style::decode(Some("8.5"), style), None);
    assert_eq!(Style::decode(Some("9.2.1"), style), None);
    assert_eq!(Style::decode(Some("a"), style), None);
    assert_eq!(Style::decode(Some("a.2"), style), None);
    assert_eq!(Style::decode(Some("a.2.b"), style), None);
    assert_eq!(ConfigStyle::decode(Some("2"), Some(ConfigStyle::Plain)), None);
    let area = Some(Area::CursorCell);
    assert_eq!(Area::decode(Some("4"), area), None);
    assert_eq!(Area::decode(Some("4.a"), area), None);
    assert_eq!(Area::decode(Some("5"), area), None);
    assert_eq!(Area::decode(Some("5.1"), area), None);
    let input = Some(InputSettings::Notty(()));
    assert_eq!(InputSettings::decode(Some("3"), input), None);
    assert_eq!(InputSettings::decode(Some("3.1.2.3"), input), None);
    assert_eq!(InputSettings::decode(Some("3.1.2.3.4.5.6.7.8"), input), None);
    assert_eq!(InputSettings::decode(Some("4.1.2"), input), None);
}

#[test]
fn areas_without_their_numbers_are_the_whole_screen() {
    let d = Some(Area::CursorCell);
    assert_eq!(Area::decode(Some("6"), d), Some(Area::WholeScreen));
    assert_eq!(Area::decode(Some("6.1.2.3"), d), Some(Area::WholeScreen));
    assert_eq!(Area::decode(Some("7"), d), Some(Area::WholeScreen));
    assert_eq!(Area::decode(Some("7.1"), d), Some(Area::WholeScreen));
    assert_eq!(Area::decode(Some("8"), d), Some(Area::WholeScreen));
    assert_eq!(Area::decode(Some("8.1"), d), Some(Area::WholeScreen));
}

#[test]
fn regions_are_read_from_either_pair_of_corners() {
    let want = Some(Region { left: 0, top: 1, right: 2, bottom: 3 });
    assert_eq!(Region::decode(Some("2.3.0.1"), None), want);
    assert_eq!(Region::decode(Some("2.1.0.3"), None), want);
    assert_eq!(Region::decode(Some("0.1.2.3.9.9"), None), want);
    assert_eq!(
        Area::decode(Some("6.64.64.0.a"), None),
        Some(Area::Bound(Region { left: 0, top: 10, right: 100, bottom: 100 }))
    );
}

#[test]
fn corners_that_span_no_region_give_none() {
    let d = Some(Region::new(0, 0, 1, 1));
    assert_eq!(Region::decode(Some("0.0.0.0"), d), None);
    assert_eq!(Region::decode(Some("1.2.1.5"), d), None);
    assert_eq!(Region::decode(Some("1.2.5.2"), d), None);
    assert_eq!(Region::decode(Some("0.0.100000000.1"), d), None);
    assert_eq!(Area::decode(Some("6.0.0.0.0"), Some(Area::CursorCell)), None);
    assert_eq!(Area::decode(Some("6.1.2.1.5"), Some(Area::CursorCell)), None);
    assert_eq!(Area::decode(Some("6.0.0.0"), Some(Area::CursorCell)), Some(Area::WholeScreen));
}

#[test]
fn wide_tokens_are_cut_to_the_width_of_the_field() {
    assert_eq!(u32::decode(Some("100000001"), None), Some(1));
    assert_eq!(Coords::decode(Some("1ffffffff.100000000"), None), Some(Coords { x: u32::MAX, y: 0 }));
    assert_eq!(Color::decode(Some("1.1ff"), None), Some(Color::Palette(0xff)));
    assert_eq!(Style::decode(Some("7.140"), None), Some(Style::Opacity(0x40)));
    assert_eq!(SplitKind::decode(Some("0.100000005"), None), Some(SplitKind::Horizontal(5)));
}

#[test]
fn reading_takes_only_the_tokens_of_the_value() {
    let mut toks = Tokens::new(vec![3, 4, 1, 2, 0, 1, 2, 1, 2, 9, 6, 7]);
    assert_eq!(Coords::from_nums(&mut toks, None), Some(Coords { x: 3, y: 4 }));
    assert_eq!(Direction::from_nums(&mut toks, None), Some(Direction::Up));
    assert_eq!(Color::from_nums(&mut toks, None), Some(Color::True(0, 1, 2)));
    assert_eq!(bool::from_nums(&mut toks, None), Some(true));
    assert_eq!(ResizeRule::from_nums(&mut toks, None), Some(ResizeRule::MaxRightBottom));
    assert_eq!(Direction::from_nums(&mut toks, Some(Direction::Left)), Some(Direction::Left));
    assert_eq!(toks.next(), Some(6));
    assert_eq!(Coords::from_nums(&mut toks, None), None);
    assert_eq!(toks.next(), None);
    assert_eq!(u64::from_nums(&mut toks, Some(5)), Some(5));
}

#[test]
fn reading_input_settings_takes_the_flag_that_follows() {
    let mut toks = Tokens::new(vec![1, 1, 1, 2, 1, 0, 5]);
    assert_eq!(toks.remaining(), 7);
    assert_eq!(InputSettings::from_nums(&mut toks, None), Some(InputSettings::Ansi(true)));
    assert_eq!(toks.remaining(), 5);
    assert_eq!(InputSettings::from_nums(&mut toks, None), Some(InputSettings::Ansi(false)));
    assert_eq!(toks.remaining(), 3);
    assert_eq!(InputSettings::from_nums(&mut toks, None), Some(InputSettings::Ansi(false)));
    assert_eq!(toks.next(), Some(5));
    assert_eq!(toks.remaining(), 0);
    let mut toks = Tokens::new(vec![1]);
    assert_eq!(InputSettings::from_nums(&mut toks, None), Some(InputSettings::Ansi(false)));
    assert_eq!(toks.next(), None);
    for v in [InputSettings::Ansi(false), InputSettings::Ansi(true), InputSettings::Notty(())] {
        let mut nums = vec![];
        v.push_nums(&mut nums);
        let mut toks = Tokens::new(nums);
        assert_eq!(InputSettings::from_nums(&mut toks, None), Some(v));
        assert_eq!(toks.remaining(), 0);
    }
}

#[test]
fn reading_an_area_takes_the_corners_that_follow() {
    let mut toks = Tokens::new(vec![6, 0, 0, 0, 0, 9]);
    assert_eq!(Area::from_nums(&mut toks, Some(Area::CursorRow)), None);
    assert_eq!(toks.next(), Some(9));
    let mut toks = Tokens::new(vec![6, 3, 4, 1, 2, 9]);
    assert_eq!(
        Area::from_nums(&mut toks, None),
        Some(Area::Bound(Region { left: 1, top: 2, right: 3, bottom: 4 }))
    );
    assert_eq!(toks.next(), Some(9));
    let mut toks = Tokens::new(vec![6, 3, 4, 1]);
    assert_eq!(Area::from_nums(&mut toks, None), Some(Area::WholeScreen));
    assert_eq!(toks.remaining(), 0);
}

#[test]
fn reading_a_movement_leaves_what_follows_it() {
    let mut toks = Tokens::new(vec![2, 1, 0x100, 0, 7, 3, 9]);
    assert_eq!(
        Movement::from_nums(&mut toks, None),
        Some(Movement::To(Direction::Up, 0x100, false))
    );
    assert_eq!(Movement::from_nums(&mut toks, None), Some(Movement::Column(3)));
    assert_eq!(Movement::from_nums(&mut toks, None), Some(Movement::ToEnd));
    assert_eq!(Movement::from_nums(&mut toks, Some(Movement::ToBeginning)), Some(Movement::ToBeginning));
    let mut toks = Tokens::new(vec![8, 2, 0, 1, 0x19, 5]);
    assert_eq!(Style::from_nums(&mut toks, None), Some(Style::FgColor(Color::True(0, 1, 0x19))));
    assert_eq!(toks.next(), Some(5));
    let mut out = vec![1u64];
    Movement::Tab(Direction::Left, 2, true).push_nums(&mut out);
    Coords { x: 5, y: 6 }.push_nums(&mut out);
    assert_eq!(out, vec![1, 5, 3, 2, 1, 5, 6]);
}

#[test]
fn directions_and_movements() {
    assert_eq!(Direction::Up.rev(), Direction::Down);
    assert_eq!(Direction::Down.rev(), Direction::Up);
    assert_eq!(Direction::Left.rev(), Direction::Right);
    assert_eq!(Direction::Right.rev(), Direction::Left);
    for d in [Direction::Up, Direction::Down, Direction::Left, Direction::Right] {
        assert_eq!(d.rev().rev(), d);
    }
    let cursor = Coords { x: 5, y: 5 };
    assert_eq!(Movement::To(Direction::Up, 1, false).direction(cursor), Direction::Up);
    assert_eq!(Movement::ToEdge(Direction::Left).direction(cursor), Direction::Left);
    assert_eq!(Movement::IndexTo(Direction::Down, 1).direction(cursor), Direction::Down);
    assert_eq!(Movement::Tab(Direction::Right, 1, true).direction(cursor), Direction::Right);
    assert_eq!(Movement::ToBeginning.direction(cursor), Direction::Left);
    assert_eq!(Movement::ToEnd.direction(cursor), Direction::Right);
    assert_eq!(Movement::PreviousLine(1).direction(cursor), Direction::Up);
    assert_eq!(Movement::NextLine(1).direction(cursor), Direction::Down);
    assert_eq!(Movement::Column(4).direction(cursor), Direction::Left);
    assert_eq!(Movement::Column(5).direction(cursor), Direction::Right);
    assert_eq!(Movement::Row(4).direction(cursor), Direction::Up);
    assert_eq!(Movement::Row(5).direction(cursor), Direction::Down);
    assert_eq!(Movement::Position(Coords { x: 9, y: 4 }).direction(cursor), Direction::Left);
    assert_eq!(Movement::Position(Coords { x: 4, y: 5 }).direction(cursor), Direction::Left);
    assert_eq!(Movement::Position(Coords { x: 5, y: 5 }).direction(cursor), Direction::Right);
    assert_eq!(Movement::Position(Coords { x: 0, y: 6 }).direction(cursor), Direction::Right);
    assert!(Movement::IndexTo(Direction::Up, 1).scrolls());
    assert!(Movement::PreviousLine(1).scrolls());
    assert!(Movement::NextLine(1).scrolls());
    assert!(!Movement::To(Direction::Up, 1, true).scrolls());
    assert!(!Movement::Tab(Direction::Up, 1, true).scrolls());
    assert!(!Movement::Position(cursor).scrolls());
    assert!(!Movement::ToEnd.scrolls());
}

#[test]
fn buffer_settings_tell_control_characters() {
    let b = buffer();
    assert!(b.eof('\u{4}'));
    assert!(!b.eof('\n'));
    assert!(b.eol('\n'));
    assert!(b.eol('\r'));
    assert!(b.eol('\u{4}'));
    assert!(!b.eol('a'));
    assert!(b.signal('\u{3}'));
    assert!(b.signal('\u{1c}'));
    assert!(b.signal('\u{1a}'));
    assert!(!b.signal('\u{4}'));
    let high = BufferSettings { intr: 0x84, quit: 0, susp: 0, eol1: 0xe9, eol2: 0, eof: 0x80 };
    assert!(!high.eof('\u{80}'));
    assert!(!high.eol('\u{e9}'));
    assert!(!high.signal('\u{84}'));
    assert!(!high.eof('\u{104}'));
    assert!(high.signal('\0'));
}

#[test]
fn default_values() {
    assert_eq!(Color::default(), Color::Default);
    assert_eq!(ConfigStyle::default(), ConfigStyle::Plain);
    assert_eq!(
        MediaPosition::default(),
        MediaPosition::Display(MediaAlignment::LeftTop, MediaAlignment::LeftTop)
    );
    assert_eq!(Coords::default(), Coords { x: 0, y: 0 });
}
