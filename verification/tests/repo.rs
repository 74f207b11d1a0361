use gigawatt::repo::{
    is_repo_dirty, repo_head_description, repo_state, repo_status, HeadKind, InProgress,
};

#[test]
fn states_have_labels() {
    assert_eq!(repo_state(None), None);
    assert_eq!(repo_state(Some(InProgress::ApplyMailbox)), Some("Applying"));
    assert_eq!(repo_state(Some(InProgress::ApplyMailboxRebase)), Some("Applying"));
    assert_eq!(repo_state(Some(InProgress::Bisect)), Some("Bisecting"));
    assert_eq!(repo_state(Some(InProgress::CherryPick)), Some("🍒"));
    assert_eq!(repo_state(Some(InProgress::CherryPickSequence)), Some("🍒"));
    assert_eq!(repo_state(Some(InProgress::Merge)), Some("Merging"));
    assert_eq!(repo_state(Some(InProgress::Rebase)), Some("Rebasing"));
    assert_eq!(repo_state(Some(InProgress::RebaseInteractive)), Some("Rebasing"));
    assert_eq!(repo_state(Some(InProgress::Revert)), Some("Reverting"));
    assert_eq!(repo_state(Some(InProgress::RevertSequence)), Some("Reverting"));
}

#[test]
fn unknown_status_counts_as_clean() {
    assert!(is_repo_dirty(Some(true)));
    assert!(!is_repo_dirty(Some(false)));
    assert!(!is_repo_dirty(None));
}

#[test]
fn branch_heads_are_shown_by_short_name() {
    let head = HeadKind::Symbolic { name: "refs/heads/main".to_string() };
    assert_eq!(repo_head_description(&head), Some("main".to_string()));
    let head = HeadKind::Symbolic { name: "refs/heads/feature/x".to_string() };
    assert_eq!(repo_head_description(&head), Some("feature/x".to_string()));
    let head = HeadKind::Unborn { name: "refs/heads/trunk".to_string() };
    assert_eq!(repo_head_description(&head), Some("trunk".to_string()));
    let head = HeadKind::Symbolic { name: "refs/remotes/origin/main".to_string() };
    assert_eq!(repo_head_description(&head), Some("origin/main".to_string()));
    let head = HeadKind::Symbolic { name: "refs/tags/v1".to_string() };
    assert_eq!(repo_head_description(&head), Some("v1".to_string()));
}

#[test]
fn invalid_reference_names_have_no_description() {
    let head = HeadKind::Symbolic { name: "refs/heads/a..b".to_string() };
    assert_eq!(repo_head_description(&head), None);
    let head = HeadKind::Unborn { name: "".to_string() };
    assert_eq!(repo_head_description(&head), None);
}

#[test]
fn detached_heads_are_shown_by_seven_digits() {
    let target: Vec<u8> = (0u8..20).map(|i| 0xab_u8.wrapping_add(i.wrapping_mul(0x22))).collect();
    let head = HeadKind::Detached { target: target.clone(), peeled: None };
    assert_eq!(repo_head_description(&head), Some("abcdef1".to_string()));
    let peeled: Vec<u8> = vec![0x01, 0x23, 0x45, 0x67, 0x89, 0, 0, 0, 0, 0, 0, 0, 0, 0, 0, 0, 0, 0, 0, 0];
    let head = HeadKind::Detached { target, peeled: Some(peeled) };
    assert_eq!(repo_head_description(&head), Some("0123456".to_string()));
    let head = HeadKind::Detached { target: vec![1, 2, 3], peeled: None };
    assert_eq!(repo_head_description(&head), None);
}

#[test]
fn status_gathers_what_was_found() {
    let status = repo_status(Some(InProgress::Merge), Some("main".to_string()), Some(true));
    assert_eq!(status.state, Some("Merging".to_string()));
    assert_eq!(status.head, Some("main".to_string()));
    assert!(status.dirty);
    let status = repo_status(None, None, None);
    assert_eq!(status.state, None);
    assert_eq!(status.head, None);
    assert!(!status.dirty);
}
