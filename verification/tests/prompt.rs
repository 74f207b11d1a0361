use gigawatt::gfx::colors::{accent_tint, luminance_to_256, ramp_shift};
use gigawatt::gfx::text::TermColor;
use gigawatt::prompt::{
    prompt_bg_colors, prompt_text, render_prompt, wrappers_for_shell, Accents, Capabilities,
    RepoStatus,
};

fn accents(is_dark: bool) -> Accents {
    Accents { is_dark, truecolor: ((59, 61, 70), (46, 47, 52)), ramp: (238, 235) }
}

#[test]
fn gray_level_of_a_black_background() {
    assert_eq!(luminance_to_256(238), 238);
    assert_eq!(luminance_to_256(235), 235);
}

#[test]
fn primary_accent_of_a_black_background_is_code_238() {
    let lightness = 0.0_f64;
    let shifted = (lightness + f64::from(ramp_shift(true).0) / 100.0).clamp(0.0, 1.0);
    let level = (shifted * 24.0 + 232.0).round() as i64;
    assert_eq!(luminance_to_256(level), 238);
    let white = ((1.0_f64 + f64::from(ramp_shift(true).0) / 100.0).clamp(0.0, 1.0) * 24.0 + 232.0).round() as i64;
    assert_eq!(white, 256);
    assert_eq!(luminance_to_256(white), 231);
}

#[test]
fn gray_levels_stay_in_the_palette() {
    assert_eq!(luminance_to_256(232), 232);
    assert_eq!(luminance_to_256(255), 255);
    assert_eq!(luminance_to_256(256), 231);
    assert_eq!(luminance_to_256(300), 231);
    assert_eq!(luminance_to_256(i64::MAX), 231);
    assert_eq!(luminance_to_256(231), 232);
    assert_eq!(luminance_to_256(0), 232);
    assert_eq!(luminance_to_256(-5), 232);
    assert_eq!(luminance_to_256(i64::MIN), 232);
}

#[test]
fn tints_and_shifts_follow_the_background() {
    assert_eq!(accent_tint(true), (198, 208, 245));
    assert_eq!(accent_tint(false), (65, 69, 89));
    assert_eq!(ramp_shift(true), (24, 12));
    assert_eq!(ramp_shift(false), (-15, -6));
}

#[test]
fn accent_colors_follow_the_color_tier() {
    let truecolor = Capabilities { truecolor: true, color256: true };
    assert_eq!(
        prompt_bg_colors(&accents(true), &truecolor),
        (TermColor::Rgb((59, 61, 70)), TermColor::Rgb((46, 47, 52)))
    );
    let palette = Capabilities { truecolor: false, color256: true };
    assert_eq!(
        prompt_bg_colors(&accents(true), &palette),
        (TermColor::Palette(238), TermColor::Palette(235))
    );
    let bright = Accents { ramp: (256, 255), ..accents(false) };
    assert_eq!(
        prompt_bg_colors(&bright, &palette),
        (TermColor::Palette(231), TermColor::Palette(255))
    );
    let basic = Capabilities { truecolor: false, color256: false };
    assert_eq!(
        prompt_bg_colors(&accents(true), &basic),
        (TermColor::Palette(8), TermColor::Palette(0))
    );
    assert_eq!(
        prompt_bg_colors(&accents(false), &basic),
        (TermColor::Palette(7), TermColor::Palette(15))
    );
}

#[test]
fn shells_have_their_own_markers() {
    assert_eq!(wrappers_for_shell("bash"), Some(("\\[", "\\]")));
    assert_eq!(wrappers_for_shell("zsh"), Some(("%{", "%}")));
    assert_eq!(wrappers_for_shell("fish"), None);
    assert_eq!(wrappers_for_shell("Bash"), None);
    assert_eq!(wrappers_for_shell(""), None);
}

#[test]
fn prompt_outside_a_repository() {
    let colors = (TermColor::Palette(238), TermColor::Palette(235));
    let expected = "\x1b[38;5;238;49;22m\n\u{e0b6}\x1b[39;48;5;238m ~/a \x1b[38;5;238;48;5;235m\u{e0b0}\x1b[38;5;235;49m\u{e0b0}\n\x1b[92;1m\u{276f} \x1b[0m";
    assert_eq!(prompt_text(colors, true, Some("~/a"), None).render(None), expected);
    assert_eq!(render_prompt("fish", colors, true, Some("~/a"), None), expected);
    let wrapped = "%{\x1b[38;5;238;49;22m%}\n\u{e0b6}%{\x1b[39;48;5;238m%} ~/a %{\x1b[38;5;238;48;5;235m%}\u{e0b0}%{\x1b[38;5;235;49m%}\u{e0b0}\n%{\x1b[92;1m%}\u{276f} %{\x1b[0m%}";
    assert_eq!(render_prompt("zsh", colors, true, Some("~/a"), None), wrapped);
}

#[test]
fn prompt_in_a_repository() {
    let colors = (TermColor::Palette(7), TermColor::Palette(15));
    let repo = RepoStatus {
        state: Some("Rebasing".to_string()),
        head: Some("main".to_string()),
        dirty: true,
    };
    let expected = "\x1b[37;49;22m\n\u{e0b6}\x1b[39;47m /tmp \x1b[37;107m\u{e0b0}\x1b[39m 🌵 \x1b[32mRebasing \x1b[39mmain \x1b[32m! \x1b[97;49m\u{e0b0}\n\x1b[32;1m\u{276f} \x1b[0m";
    assert_eq!(render_prompt("sh", colors, false, Some("/tmp"), Some(&repo)), expected);
}

#[test]
fn prompt_marks_are_bold_on_a_dark_background() {
    let colors = (TermColor::Palette(8), TermColor::Palette(0));
    let repo = RepoStatus { state: None, head: Some("main".to_string()), dirty: true };
    let expected = "\x1b[90;49;22m\n\u{e0b6}\x1b[39;100m /tmp \x1b[90;40m\u{e0b0}\x1b[39m 🌵 main \x1b[92;1m! \x1b[30;49;22m\u{e0b0}\n\x1b[92;1m\u{276f} \x1b[0m";
    assert_eq!(render_prompt("sh", colors, true, Some("/tmp"), Some(&repo)), expected);
}

#[test]
fn prompt_without_head_or_path() {
    let colors = (TermColor::Palette(7), TermColor::Palette(15));
    let repo = RepoStatus { state: Some("Merging".to_string()), head: None, dirty: true };
    let expected = "\x1b[37;49;22m\n\u{e0b6}\x1b[39;47m 🆘 \x1b[37;107m\u{e0b0}\x1b[97;49m\u{e0b0}\n\x1b[32;1m\u{276f} \x1b[0m";
    assert_eq!(render_prompt("sh", colors, false, None, Some(&repo)), expected);
    assert_eq!(render_prompt("sh", colors, false, None, None), expected);
}
