//! The path that the prompt shows: short, and relative to the repository or
//! to the home directory where it lies in one.

use std::path::{Component, Path, PathBuf};
use vstd::prelude::*;
use vstd::string::StringExecFns;

verus! {

/// A component of a path.
#[derive(Debug)]
pub enum PathPart {
    /// A prefix such as a drive letter.
    Prefix(String),
    /// The root directory.
    Root,
    /// The directory itself, written `.`.
    Current,
    /// The directory above, written `..`.
    Parent,
    /// A directory or a file, by its name.
    Normal(String),
}

/// A component as a value.
pub ghost enum PathPartView {
    Prefix(Seq<char>),
    Root,
    Current,
    Parent,
    Normal(Seq<char>),
}

impl View for PathPart {
    type V = PathPartView;

    open spec fn view(&self) -> PathPartView {
        match self {
            PathPart::Prefix(p) => PathPartView::Prefix(p@),
            PathPart::Root => PathPartView::Root,
            PathPart::Current => PathPartView::Current,
            PathPart::Parent => PathPartView::Parent,
            PathPart::Normal(n) => PathPartView::Normal(n@),
        }
    }
}

/// The components of a vector as values, in order.
pub open spec fn part_views(parts: Seq<PathPart>) -> Seq<PathPartView> {
    Seq::new(parts.len(), |i: int| parts[i]@)
}

/// The components of a path, as `Path::components` gives them.
pub uninterp spec fn components_of(path: Seq<char>) -> Seq<PathPartView>;

/// The path without its last component, as `Path::parent` gives it.
pub uninterp spec fn parent_of(path: Seq<char>) -> Option<Seq<char>>;

/// Whether `base` is a prefix of `path`, as `Path::starts_with` finds.
pub uninterp spec fn starts_with_path(path: Seq<char>, base: Seq<char>) -> bool;

/// What is left of `path` after `base`, as `Path::strip_prefix` gives it.
pub uninterp spec fn stripped_of(path: Seq<char>, base: Seq<char>) -> Option<Seq<char>>;

/// `path` joined to `base`, as `PathBuf::join` gives it.
pub uninterp spec fn joined_path(base: Seq<char>, path: Seq<char>) -> Seq<char>;

/// The path made of the components, as collecting them into a `PathBuf`
/// gives it.
pub uninterp spec fn collected_path(parts: Seq<Seq<char>>) -> Seq<char>;

/// `Path::components` gives the components of the path, which depend on
/// nothing but the path. Each is handed on by its kind and its name.
#[verifier::external_body]
fn path_components(path: &str) -> (parts: Vec<PathPart>)
    ensures
        part_views(parts@) == components_of(path@),
{
    Path::new(path).components().map(
        |c| match c {
            Component::Prefix(p) => PathPart::Prefix(p.as_os_str().to_string_lossy().into_owned()),
            Component::RootDir => PathPart::Root,
            Component::CurDir => PathPart::Current,
            Component::ParentDir => PathPart::Parent,
            Component::Normal(n) => PathPart::Normal(n.to_string_lossy().into_owned()),
        },
    ).collect()
}

/// `Path::parent` gives the path without its last component, or nothing,
/// which depends on nothing but the path.
#[verifier::external_body]
fn path_parent(path: &str) -> (parent: Option<String>)
    ensures
        match parent {
            Some(p) => parent_of(path@) == Some(p@),
            None => parent_of(path@) is None,
        },
{
    Path::new(path).parent().map(|p| p.to_string_lossy().into_owned())
}

/// `Path::starts_with` says whether `base` is a prefix of `path`, which
/// depends on nothing but the two.
#[verifier::external_body]
fn path_starts_with(path: &str, base: &str) -> (starts: bool)
    ensures
        starts == starts_with_path(path@, base@),
{
    Path::new(path).starts_with(base)
}

/// `Path::strip_prefix` gives what is left of `path` after `base`, or
/// nothing, which depends on nothing but the two.
#[verifier::external_body]
fn path_strip_prefix(path: &str, base: &str) -> (rest: Option<String>)
    ensures
        match rest {
            Some(r) => stripped_of(path@, base@) == Some(r@),
            None => stripped_of(path@, base@) is None,
        },
{
    Path::new(path).strip_prefix(base).ok().map(|p| p.to_string_lossy().into_owned())
}

/// `PathBuf::join` gives `path` joined to `base`, which depends on nothing
/// but the two.
#[verifier::external_body]
fn path_join(base: &str, path: &str) -> (whole: String)
    ensures
        whole@ == joined_path(base@, path@),
{
    PathBuf::from(base).join(path).to_string_lossy().into_owned()
}

/// Collecting into a `PathBuf` gives the path made of the components,
/// which depends on nothing but them.
#[verifier::external_body]
fn path_collect(parts: &Vec<String>) -> (whole: String)
    ensures
        whole@ == collected_path(parts.deep_view()),
{
    parts.iter().collect::<PathBuf>().to_string_lossy().into_owned()
}

/// `NixPath::is_empty` says whether the path is the empty string.
#[verifier::external_body]
fn path_is_empty(path: &str) -> (empty: bool)
    ensures
        empty == (path@.len() == 0),
{
    nix::NixPath::is_empty(path)
}

/// How a component is written.
pub open spec fn part_text(part: PathPartView) -> Seq<char> {
    match part {
        PathPartView::Prefix(p) => p,
        PathPartView::Root => "/"@,
        PathPartView::Current => "."@,
        PathPartView::Parent => ".."@,
        PathPartView::Normal(n) => n,
    }
}

/// How the components are written, in order.
pub open spec fn part_texts(parts: Seq<PathPartView>) -> Seq<Seq<char>> {
    Seq::new(parts.len(), |i: int| part_text(parts[i]))
}

/// The number of components that name a directory or a file.
pub open spec fn normal_count(parts: Seq<PathPartView>) -> nat
    decreases parts.len(),
{
    if parts.len() == 0 {
        0
    } else {
        normal_count(parts.drop_last()) + if parts.last() is Normal {
            1nat
        } else {
            0nat
        }
    }
}

/// The name of the last component, if it names a directory or a file.
pub open spec fn last_name(parts: Seq<PathPartView>) -> Option<Seq<char>> {
    if parts.len() > 0 && parts.last() is Normal {
        Some(parts.last()->Normal_0)
    } else {
        None
    }
}

/// The number of components among `parts` that name a directory or a file.
pub fn depth_of(parts: &Vec<PathPart>) -> (depth: usize)
    ensures
        depth == normal_count(part_views(parts@)),
{
    let ghost views = part_views(parts@);
    let mut depth: usize = 0;
    let mut i: usize = 0;
    assert(views.take(0) == Seq::<PathPartView>::empty());
    while i < parts.len()
        invariant
            i <= parts.len(),
            views == part_views(parts@),
            depth == normal_count(views.take(i as int)),
            depth <= i,
        decreases parts.len() - i,
    {
        proof {
            let next = views.take(i + 1);
            assert(next.drop_last() == views.take(i as int));
            assert(next.last() == parts[i as int]@);
        }
        if let PathPart::Normal(_) = &parts[i] {
            depth += 1;
        }
        i += 1;
    }
    assert(views.take(parts.len() as int) == views);
    depth
}

/// The name of the last of `parts`, if it names a directory or a file.
pub fn name_of(parts: &Vec<PathPart>) -> (name: Option<String>)
    ensures
        match name {
            Some(n) => last_name(part_views(parts@)) == Some(n@),
            None => last_name(part_views(parts@)) is None,
        },
{
    if parts.len() == 0 {
        return None;
    }
    assert(part_views(parts@).last() == parts[parts.len() - 1]@);
    match &parts[parts.len() - 1] {
        PathPart::Normal(n) => Some(n.clone()),
        _ => None,
    }
}

/// How the last `count` of `parts` are written, or all of them where there
/// are fewer.
pub fn last_texts(parts: &Vec<PathPart>, count: usize) -> (texts: Vec<String>)
    ensures
        texts.deep_view() == part_texts(
            part_views(parts@).skip(
                if parts.len() >= count {
                    parts.len() - count
                } else {
                    0
                },
            ),
        ),
{
    let start: usize = if parts.len() >= count {
        parts.len() - count
    } else {
        0
    };
    let ghost wanted = part_texts(part_views(parts@).skip(start as int));
    let mut texts: Vec<String> = Vec::new();
    let mut i: usize = start;
    while i < parts.len()
        invariant
            start <= i <= parts.len(),
            wanted == part_texts(part_views(parts@).skip(start as int)),
            texts.len() == i - start,
            forall|j: int| 0 <= j < texts.len() ==> (#[trigger] texts[j])@ == wanted[j],
        decreases parts.len() - i,
    {
        assert(part_views(parts@).skip(start as int)[i - start] == parts[i as int]@);
        let text = match &parts[i] {
            PathPart::Prefix(p) => p.clone(),
            PathPart::Root => String::from_str("/"),
            PathPart::Current => String::from_str("."),
            PathPart::Parent => String::from_str(".."),
            PathPart::Normal(n) => n.clone(),
        };
        texts.push(text);
        i += 1;
    }
    assert(texts.deep_view() =~= wanted);
    texts
}

/// The number of directories and files that a path names. The root and the
/// marks for the directory itself and the one above do not count.
pub fn directory_depth(path: &str) -> (depth: usize)
    ensures
        depth == normal_count(components_of(path@)),
{
    depth_of(&path_components(path))
}

/// The name of the file or directory that a path ends in.
pub fn file_name(path: &str) -> (name: Option<String>)
    ensures
        match name {
            Some(n) => last_name(components_of(path@)) == Some(n@),
            None => last_name(components_of(path@)) is None,
        },
{
    name_of(&path_components(path))
}

/// The most directories that a path is shown with.
pub const MAX_SHOWN_DEPTH: usize = 3;

/// A path as it is shown. The empty path is shown as the prefix alone, or
/// as a question mark without one. A path of more than three directories is
/// shown as an ellipsis and its last three components. Any other is shown
/// whole, after the prefix if there is one.
pub open spec fn shortened(path: Seq<char>, prefix: Option<Seq<char>>) -> Seq<char> {
    if path.len() == 0 {
        match prefix {
            Some(p) => p,
            None => "?"@,
        }
    } else {
        let parts = components_of(path);
        if normal_count(parts) > MAX_SHOWN_DEPTH {
            joined_path("…"@, collected_path(part_texts(parts.skip(parts.len() - MAX_SHOWN_DEPTH))))
        } else {
            match prefix {
                Some(p) => joined_path(p, path),
                None => path,
            }
        }
    }
}

/// A component that is not counted adds nothing, so there are at least as
/// many components as are counted.
proof fn lemma_normal_count_bound(parts: Seq<PathPartView>)
    ensures
        normal_count(parts) <= parts.len(),
    decreases parts.len(),
{
    if parts.len() > 0 {
        lemma_normal_count_bound(parts.drop_last());
    }
}

pub fn shorten_path(path: &str, prefix: Option<&str>) -> (shown: String)
    ensures
        shown@ == shortened(
            path@,
            match prefix {
                Some(p) => Some(p@),
                None => None,
            },
        ),
{
    if path_is_empty(path) {
        return match prefix {
            Some(p) => String::from_str(p),
            None => String::from_str("?"),
        };
    }
    let parts = path_components(path);
    if depth_of(&parts) > MAX_SHOWN_DEPTH {
        proof {
            lemma_normal_count_bound(part_views(parts@));
        }
        let last_three = path_collect(&last_texts(&parts, MAX_SHOWN_DEPTH));
        return path_join("…", last_three.as_str());
    }
    match prefix {
        Some(p) => path_join(p, path),
        None => String::from_str(path),
    }
}

/// What is left of `path` after the directory that holds the repository's
/// working directory, where `path` lies in that working directory.
pub open spec fn within_repo(path: Seq<char>, workdir: Option<Seq<char>>) -> Option<Seq<char>> {
    match workdir {
        Some(w) => match parent_of(w) {
            Some(parent) => if starts_with_path(path, w) {
                stripped_of(path, parent)
            } else {
                None
            },
            None => None,
        },
        None => None,
    }
}

/// The path as the prompt shows it: from the repository's directory on,
/// after an ellipsis, where it lies in a repository; else from the home
/// directory on, after a tilde, where it lies there; else whole.
pub open spec fn short_path_of(path: Seq<char>, home: Seq<char>, workdir: Option<Seq<char>>) -> Seq<
    char,
> {
    match within_repo(path, workdir) {
        Some(rest) => shortened(rest, Some("…"@)),
        None => match stripped_of(path, home) {
            Some(rest) => shortened(rest, Some("~"@)),
            None => shortened(path, None),
        },
    }
}

/// What is left of `path` within the repository, if it lies in one.
fn strip_to_repo(path: &str, repo_workdir: Option<&str>) -> (rest: Option<String>)
    ensures
        match rest {
            Some(r) => within_repo(
                path@,
                match repo_workdir {
                    Some(w) => Some(w@),
                    None => None,
                },
            ) == Some(r@),
            None => within_repo(
                path@,
                match repo_workdir {
                    Some(w) => Some(w@),
                    None => None,
                },
            ) is None,
        },
{
    let workdir = match repo_workdir {
        Some(w) => w,
        None => {
            return None;
        },
    };
    let parent = match path_parent(workdir) {
        Some(p) => p,
        None => {
            return None;
        },
    };
    if !path_starts_with(path, workdir) {
        return None;
    }
    path_strip_prefix(path, parent.as_str())
}

pub fn short_path(path: &str, home: &str, repo_workdir: Option<&str>) -> (shown: Option<String>)
    ensures
        shown matches Some(s) && s@ == short_path_of(
            path@,
            home@,
            match repo_workdir {
                Some(w) => Some(w@),
                None => None,
            },
        ),
{
    if let Some(rest) = strip_to_repo(path, repo_workdir) {
        return Some(shorten_path(rest.as_str(), Some("…")));
    }
    if let Some(rest) = path_strip_prefix(path, home) {
        return Some(shorten_path(rest.as_str(), Some("~")));
    }
    Some(shorten_path(path, None))
}

/// The path that the prompt shows, where the current directory and the
/// home directory are known.
pub fn displayed_path(current: Option<&str>, home: Option<&str>, repo_workdir: Option<&str>) -> (shown:
    Option<String>)
    ensures
        match (current, home) {
            (Some(path), Some(home)) => shown matches Some(s) && s@ == short_path_of(
                path@,
                home@,
                match repo_workdir {
                    Some(w) => Some(w@),
                    None => None,
                },
            ),
            _ => shown is None,
        },
{
    match (current, home) {
        (Some(path), Some(home)) => short_path(path, home, repo_workdir),
        _ => None,
    }
}

} // verus!
