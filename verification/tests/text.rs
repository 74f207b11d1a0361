use gigawatt::gfx::text::{
    bold, encode_bg, encode_bold, encode_fg, encode_style, encode_style_diff, encode_style_full,
    green, wrap_sgr, Style, StyledText, TermColor, TextBuilder,
};

fn plain() -> Style {
    Style { fg: None, bg: None, bold: false }
}

#[test]
fn foreground_codes() {
    assert_eq!(encode_fg(&None), "39");
    assert_eq!(encode_fg(&Some(TermColor::Palette(0))), "30");
    assert_eq!(encode_fg(&Some(TermColor::Palette(7))), "37");
    assert_eq!(encode_fg(&Some(TermColor::Palette(8))), "90");
    assert_eq!(encode_fg(&Some(TermColor::Palette(15))), "97");
    assert_eq!(encode_fg(&Some(TermColor::Palette(16))), "38;5;16");
    assert_eq!(encode_fg(&Some(TermColor::Palette(255))), "38;5;255");
    assert_eq!(encode_fg(&Some(TermColor::Rgb((1, 20, 255)))), "38;2;1;20;255");
    assert_eq!(encode_fg(&Some(TermColor::Rgb((0, 0, 0)))), "38;2;0;0;0");
}

#[test]
fn background_codes() {
    assert_eq!(encode_bg(&None), "49");
    assert_eq!(encode_bg(&Some(TermColor::Palette(0))), "40");
    assert_eq!(encode_bg(&Some(TermColor::Palette(7))), "47");
    assert_eq!(encode_bg(&Some(TermColor::Palette(8))), "100");
    assert_eq!(encode_bg(&Some(TermColor::Palette(15))), "107");
    assert_eq!(encode_bg(&Some(TermColor::Palette(16))), "48;5;16");
    assert_eq!(encode_bg(&Some(TermColor::Palette(238))), "48;5;238");
    assert_eq!(encode_bg(&Some(TermColor::Rgb((198, 208, 245)))), "48;2;198;208;245");
}

#[test]
fn bold_codes() {
    assert_eq!(encode_bold(true), "1");
    assert_eq!(encode_bold(false), "22");
}

#[test]
fn full_dump_names_all_three_attributes() {
    assert_eq!(encode_style_full(&plain()), "\x1b[39;49;22m");
    let style = Style { fg: Some(TermColor::Palette(2)), bg: Some(TermColor::Palette(9)), bold: true };
    assert_eq!(encode_style_full(&style), "\x1b[32;101;1m");
}

#[test]
fn diff_names_only_what_changed() {
    let from = Style { fg: Some(TermColor::Palette(2)), bg: None, bold: false };
    assert_eq!(encode_style_diff(&from, &from), None);
    let bolder = Style { bold: true, ..from };
    assert_eq!(encode_style_diff(&from, &bolder), Some("\x1b[1m".to_string()));
    assert_eq!(encode_style_diff(&bolder, &from), Some("\x1b[22m".to_string()));
    let other_fg = Style { fg: None, ..from };
    assert_eq!(encode_style_diff(&from, &other_fg), Some("\x1b[39m".to_string()));
    let other_bg = Style { bg: Some(TermColor::Rgb((1, 2, 3))), ..from };
    assert_eq!(encode_style_diff(&from, &other_bg), Some("\x1b[48;2;1;2;3m".to_string()));
    let all = Style { fg: Some(TermColor::Palette(200)), bg: Some(TermColor::Palette(4)), bold: true };
    assert_eq!(encode_style_diff(&from, &all), Some("\x1b[38;5;200;44;1m".to_string()));
}

#[test]
fn escapes_are_wrapped_for_the_shell() {
    assert_eq!(wrap_sgr("\x1b[0m", None), "\x1b[0m");
    assert_eq!(wrap_sgr("\x1b[0m", Some(("\\[", "\\]"))), "\\[\x1b[0m\\]");
    assert_eq!(wrap_sgr("\x1b[0m", Some(("%{", "%}"))), "%{\x1b[0m%}");
    let style = plain();
    assert_eq!(encode_style(None, &style, Some(("%{", "%}"))), Some("%{\x1b[39;49;22m%}".to_string()));
    assert_eq!(encode_style(Some(&style), &style, Some(("%{", "%}"))), None);
    let bolder = Style { bold: true, ..style };
    assert_eq!(encode_style(Some(&style), &bolder, None), Some("\x1b[1m".to_string()));
}

#[test]
fn plain_helpers() {
    assert_eq!(bold("x"), "\x1b[1mx\x1b[0m");
    assert_eq!(green("x"), "\x1b[32mx\x1b[0m");
    assert_eq!(bold(""), "\x1b[1m\x1b[0m");
}

#[test]
fn nothing_renders_to_nothing() {
    let styled: StyledText = TextBuilder::new().build();
    assert_eq!(styled.render(None), "");
    assert_eq!(styled.render(Some(("%{", "%}"))), "");
}

#[test]
fn first_fragment_gets_a_full_dump() {
    let mut b = TextBuilder::new();
    b.text("hi");
    assert_eq!(b.build().render(None), "\x1b[39;49;22mhi\x1b[0m");
    let mut b = TextBuilder::new();
    b.fg(Some(TermColor::Palette(1))).bg(Some(TermColor::Palette(12))).bold(true).text("hi");
    assert_eq!(b.build().render(None), "\x1b[31;104;1mhi\x1b[0m");
}

#[test]
fn same_style_twice_emits_no_second_escape() {
    let mut b = TextBuilder::new();
    b.fg(Some(TermColor::Palette(3))).text("a").text("b");
    assert_eq!(b.build().render(None), "\x1b[33;49;22mab\x1b[0m");
    let mut b = TextBuilder::new();
    b.fg(Some(TermColor::Palette(3))).text("a").fg(Some(TermColor::Palette(3))).text("b");
    assert_eq!(b.build().render(None), "\x1b[33;49;22mab\x1b[0m");
}

#[test]
fn bold_change_emits_only_the_bold_code() {
    let mut b = TextBuilder::new();
    b.text("a").bold(true).text("b").bold(false).text("c");
    assert_eq!(b.build().render(None), "\x1b[39;49;22ma\x1b[1mb\x1b[22mc\x1b[0m");
}

#[test]
fn later_style_does_not_reach_earlier_text() {
    let mut b = TextBuilder::new();
    b.text("a");
    b.fg(Some(TermColor::Rgb((1, 2, 3))));
    let before = b.build().render(None);
    assert_eq!(before, "\x1b[39;49;22ma\x1b[0m");
    b.text("b");
    assert_eq!(b.build().render(None), "\x1b[39;49;22ma\x1b[38;2;1;2;3mb\x1b[0m");
}

#[test]
fn every_escape_is_wrapped_and_no_text_is() {
    let mut b = TextBuilder::new();
    b.text("a").bg(Some(TermColor::Palette(4))).text("b");
    let styled = b.build();
    assert_eq!(styled.render(Some(("\\[", "\\]"))), "\\[\x1b[39;49;22m\\]a\\[\x1b[44m\\]b\\[\x1b[0m\\]");
    assert_eq!(styled.render(Some(("%{", "%}"))), "%{\x1b[39;49;22m%}a%{\x1b[44m%}b%{\x1b[0m%}");
    assert_eq!(styled.render(None), "\x1b[39;49;22ma\x1b[44mb\x1b[0m");
}

#[test]
fn colors_and_styles_compare_by_value() {
    assert_eq!(TermColor::Palette(3), TermColor::Palette(3));
    assert_ne!(TermColor::Palette(3), TermColor::Palette(4));
    assert_eq!(TermColor::Rgb((1, 2, 3)), TermColor::Rgb((1, 2, 3)));
    assert_ne!(TermColor::Rgb((1, 2, 3)), TermColor::Rgb((1, 2, 4)));
    assert_ne!(TermColor::Rgb((3, 3, 3)), TermColor::Palette(3));
    assert_eq!(Style::default(), plain());
    assert_ne!(Style { bold: true, ..plain() }, plain());
}
