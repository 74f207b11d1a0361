use gigawatt::command::{unknown_command_message, version_line};
use gigawatt::gfx::colors::prompt_256color_bg_colors;
use gigawatt::help::debug::{debug_report, Findings, RepoFindings};
use gigawatt::help::please::{confirm_prompt, outcome_line, tips_note};
use gigawatt::utils::env::{
    env_shell, env_term_program, env_term_version, supports_256color, supports_truecolor,
    yolo_mode,
};
use gigawatt::utils::strings::contains_ignore_ascii_case;
use gigawatt::utils::version::Version;

#[test]
fn shell_is_named_by_the_end_of_its_path() {
    assert_eq!(env_shell(Some("/bin/zsh")), Some("zsh".to_string()));
    assert_eq!(env_shell(Some("fish")), Some("fish".to_string()));
    assert_eq!(env_shell(Some("/")), None);
    assert_eq!(env_shell(Some("")), None);
    assert_eq!(env_shell(None), None);
    assert_eq!(env_term_program(Some("iTerm.app")), Some("iTerm.app".to_string()));
    assert_eq!(env_term_program(None), None);
}

#[test]
fn terminal_version_is_parsed() {
    assert_eq!(env_term_version(Some("455.1")), Some(Version { major: 455, minor: 1, patch: 0 }));
    assert_eq!(env_term_version(Some("v3.5.2")), Some(Version { major: 3, minor: 5, patch: 2 }));
    assert_eq!(env_term_version(Some("beta")), None);
    assert_eq!(env_term_version(None), None);
}

#[test]
fn truecolor_is_named_in_two_ways() {
    assert!(supports_truecolor(Some("truecolor")));
    assert!(supports_truecolor(Some("TrueColor")));
    assert!(supports_truecolor(Some("24bit")));
    assert!(supports_truecolor(Some("24BIT")));
    assert!(!supports_truecolor(Some("24-bit")));
    assert!(!supports_truecolor(Some("truecolor ")));
    assert!(!supports_truecolor(Some("")));
    assert!(!supports_truecolor(None));
}

#[test]
fn palette_is_named_within_the_terminal_type() {
    assert!(supports_256color(Some("xterm-256color")));
    assert!(supports_256color(Some("screen-256COLOR-bce")));
    assert!(supports_256color(Some("256color")));
    assert!(!supports_256color(Some("xterm")));
    assert!(!supports_256color(Some("xterm-256colo")));
    assert!(!supports_256color(Some("")));
    assert!(!supports_256color(None));
}

#[test]
fn substrings_are_found_in_any_case() {
    assert!(contains_ignore_ascii_case("abc", ""));
    assert!(contains_ignore_ascii_case("", ""));
    assert!(!contains_ignore_ascii_case("", "a"));
    assert!(contains_ignore_ascii_case("xxABxx", "ab"));
    assert!(contains_ignore_ascii_case("xxab", "AB"));
    assert!(!contains_ignore_ascii_case("a-b", "ab"));
}

#[test]
fn one_argument_can_say_yes_to_all() {
    let args = |list: &[&str]| -> Vec<String> { list.iter().map(|s| s.to_string()).collect() };
    assert!(yolo_mode(&args(&["gigawatt", "please", "--yes"])));
    assert!(yolo_mode(&args(&["-y"])));
    assert!(yolo_mode(&args(&["please", "--yolo", "zsh"])));
    assert!(!yolo_mode(&args(&["please", "--Yes"])));
    assert!(!yolo_mode(&args(&["please", "yes"])));
    assert!(!yolo_mode(&args(&[])));
}

#[test]
fn accent_codes_of_a_black_background() {
    assert_eq!(prompt_256color_bg_colors((238, 235)), (238, 235));
    assert_eq!(prompt_256color_bg_colors((256, 254)), (231, 254));
    assert_eq!(prompt_256color_bg_colors((100, 400)), (232, 231));
}

#[test]
fn messages_of_the_command_line() {
    assert_eq!(
        unknown_command_message("gigawatt", "frob"),
        "🆘 Unknown command 'gigawatt frob'. Maybe try 'gigawatt help'?"
    );
    assert_eq!(version_line("gigawatt", "0.1.0"), "gigawatt 0.1.0");
}

#[test]
fn messages_of_the_set_up() {
    assert_eq!(confirm_prompt(), "\x1b[32mPress Enter to continue or type \"no\" to cancel\x1b[0m: ");
    assert_eq!(outcome_line(Ok("Done!")), "✅ Done!");
    assert_eq!(outcome_line(Err("no home")), "🆘 Error: no home");
    assert_eq!(tips_note("Use a font."), "🔔 Use a font.\n\n");
}

#[test]
fn report_outside_a_repository() {
    let found = Findings {
        current_path: Some("/tmp".to_string()),
        home: None,
        workdir: None,
        display_path: None,
        repo: None,
        background: None,
        truecolor: false,
        color256: true,
    };
    assert_eq!(
        debug_report(&found),
        vec![
            "Is in repo: false",
            "Current path: /tmp",
            "Home directory: ",
            "Working directory: ",
            "Path to display: ",
            "Terminal background: ",
            "Terminal supports truecolor: false",
            "Terminal supports xterm-256color: true",
        ]
    );
}

#[test]
fn report_in_a_repository() {
    let found = Findings {
        current_path: Some("/home/me/repo".to_string()),
        home: Some("/home/me".to_string()),
        workdir: Some("/home/me/repo".to_string()),
        display_path: Some("…/repo".to_string()),
        repo: Some(RepoFindings { state: None, head: Some("main".to_string()), dirty: true }),
        background: Some((30, 30, 255)),
        truecolor: true,
        color256: false,
    };
    let lines = debug_report(&found);
    assert_eq!(lines.len(), 11);
    assert_eq!(lines[0], "Is in repo: true");
    assert_eq!(lines[4], "Path to display: …/repo");
    assert_eq!(lines[5], "Repo state: Clean");
    assert_eq!(lines[6], "Repo head: main");
    assert_eq!(lines[7], "Repo dirty: true");
    assert_eq!(lines[8], "Terminal background: 30, 30, 255");
    let merging = Findings {
        repo: Some(RepoFindings { state: Some("Merging".to_string()), head: None, dirty: false }),
        ..found
    };
    let lines = debug_report(&merging);
    assert_eq!(lines[5], "Repo state: Merging");
    assert_eq!(lines[6], "Repo head: ");
    assert_eq!(lines[7], "Repo dirty: false");
}
