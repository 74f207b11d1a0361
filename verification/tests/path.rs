use gigawatt::utils::path::{
    depth_of, directory_depth, displayed_path, file_name, last_texts, name_of, short_path,
    shorten_path, PathPart,
};

#[test]
fn test_short_path_inner() {
    assert_eq!(short_path("/", "/home", None), Some("/".into()));
    assert_eq!(short_path("/a/b/c/d", "/home", None), Some("…/b/c/d".into()));
    assert_eq!(short_path("/home/a", "/home", None), Some("~/a".into()));
    assert_eq!(short_path("/home/repo", "/home", Some("/home/repo")), Some("…/repo".into()));
}

#[test]
fn test_directory_depth() {
    assert_eq!(directory_depth("/"), 0);
    assert_eq!(directory_depth("/a"), 1);
    assert_eq!(directory_depth("/a/b"), 2);
    assert_eq!(directory_depth("/a/b/c"), 3);
    assert_eq!(directory_depth("a"), 1);
    assert_eq!(directory_depth("a/b"), 2);
    assert_eq!(directory_depth("a/b/c"), 3);
}

#[test]
fn depth_counts_names_only() {
    assert_eq!(directory_depth(""), 0);
    assert_eq!(directory_depth("./a/../b"), 2);
    assert_eq!(directory_depth("a//b/./c/"), 3);
    let parts = vec![
        PathPart::Root,
        PathPart::Normal("a".to_string()),
        PathPart::Parent,
        PathPart::Normal("b".to_string()),
        PathPart::Current,
    ];
    assert_eq!(depth_of(&parts), 2);
    assert_eq!(depth_of(&Vec::new()), 0);
}

#[test]
fn last_component_names_the_file() {
    assert_eq!(file_name("/bin/zsh"), Some("zsh".to_string()));
    assert_eq!(file_name("zsh"), Some("zsh".to_string()));
    assert_eq!(file_name("/usr/local/bin/fish/"), Some("fish".to_string()));
    assert_eq!(file_name("/"), None);
    assert_eq!(file_name(""), None);
    assert_eq!(file_name("a/.."), None);
    assert_eq!(name_of(&vec![PathPart::Root]), None);
    assert_eq!(name_of(&vec![PathPart::Root, PathPart::Normal("x".to_string())]), Some("x".to_string()));
    assert_eq!(name_of(&Vec::new()), None);
}

#[test]
fn last_components_are_written_out() {
    let parts = vec![
        PathPart::Root,
        PathPart::Normal("a".to_string()),
        PathPart::Normal("b".to_string()),
        PathPart::Parent,
        PathPart::Current,
    ];
    assert_eq!(last_texts(&parts, 3), vec!["b".to_string(), "..".to_string(), ".".to_string()]);
    assert_eq!(last_texts(&parts, 9).len(), 5);
    assert_eq!(last_texts(&parts, 9)[0], "/");
    assert_eq!(last_texts(&parts, 0).len(), 0);
}

#[test]
fn shortening_keeps_three_directories() {
    assert_eq!(shorten_path("", Some("~")), "~");
    assert_eq!(shorten_path("", None), "?");
    assert_eq!(shorten_path("a/b/c", Some("~")), "~/a/b/c");
    assert_eq!(shorten_path("a/b/c/d", Some("~")), "…/b/c/d");
    assert_eq!(shorten_path("/a/b/c", None), "/a/b/c");
    assert_eq!(shorten_path("/a/b/c/d/e", None), "…/c/d/e");
    assert_eq!(shorten_path("a", Some("…")), "…/a");
}

#[test]
fn short_path_prefers_the_repository() {
    assert_eq!(short_path("/home", "/home", None), Some("~".into()));
    assert_eq!(short_path("/home/me/src/repo/a", "/home/me", Some("/home/me/src/repo")), Some("…/repo/a".into()));
    assert_eq!(
        short_path("/home/me/src/repo/a/b/c", "/home/me", Some("/home/me/src/repo")),
        Some("…/a/b/c".into())
    );
    assert_eq!(short_path("/home/me/other", "/home/me", Some("/home/me/src/repo")), Some("~/other".into()));
    assert_eq!(short_path("/homely", "/home", None), Some("/homely".into()));
    assert_eq!(short_path("/", "/home", Some("/")), Some("/".into()));
}

#[test]
fn displayed_path_needs_both_directories() {
    assert_eq!(displayed_path(Some("/home/a"), Some("/home"), None), Some("~/a".to_string()));
    assert_eq!(displayed_path(None, Some("/home"), None), None);
    assert_eq!(displayed_path(Some("/home/a"), None, None), None);
    assert_eq!(displayed_path(None, None, Some("/home/a")), None);
}
