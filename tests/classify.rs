use git_prompt::changes::{
    PathStatus, RepoStatus, CONFLICTED, INDEX_DELETED, INDEX_MODIFIED, INDEX_NEW, INDEX_RENAMED,
    WT_DELETED, WT_MODIFIED, WT_NEW, WT_RENAMED,
};
use git_prompt::head::{branch_from_head_file, upstream_name};

fn flags() -> PathStatus {
    PathStatus::default()
}

#[test]
fn fresh_counts_are_clean() {
    let c = RepoStatus::new();
    assert!(c.is_clean());
    assert_eq!(RepoStatus::default(), c);
}

#[test]
fn index_and_worktree_modified_count_once_each() {
    let mut c = RepoStatus::new();
    c.add(PathStatus { index_modified: true, wt_modified: true, ..flags() });
    assert_eq!(c.staged, 1);
    assert_eq!(c.modified, 1);
    assert_eq!(c.conflicted + c.deleted + c.renamed + c.untracked, 0);
    assert!(!c.is_clean());
}

#[test]
fn each_rule_counts_its_flags() {
    assert!(RepoStatus::is_conflicted(PathStatus { conflicted: true, ..flags() }));
    assert!(RepoStatus::is_deleted(PathStatus { wt_deleted: true, ..flags() }));
    assert!(RepoStatus::is_deleted(PathStatus { index_deleted: true, ..flags() }));
    assert!(RepoStatus::is_renamed(PathStatus { wt_renamed: true, ..flags() }));
    assert!(RepoStatus::is_renamed(PathStatus { index_renamed: true, ..flags() }));
    assert!(RepoStatus::is_modified(PathStatus { wt_modified: true, ..flags() }));
    assert!(!RepoStatus::is_modified(PathStatus { index_modified: true, ..flags() }));
    assert!(RepoStatus::is_staged(PathStatus { index_modified: true, ..flags() }));
    assert!(RepoStatus::is_staged(PathStatus { index_new: true, ..flags() }));
    assert!(RepoStatus::is_untracked(PathStatus { wt_new: true, ..flags() }));
    assert!(!RepoStatus::is_untracked(PathStatus { index_new: true, ..flags() }));
}

#[test]
fn counts_over_an_enumeration() {
    let v = vec![
        PathStatus { index_new: true, ..flags() },
        PathStatus { wt_new: true, ..flags() },
        PathStatus { wt_deleted: true, index_deleted: true, ..flags() },
        PathStatus { index_renamed: true, wt_modified: true, ..flags() },
        PathStatus { conflicted: true, ..flags() },
        flags(),
    ];
    let c = RepoStatus::from_statuses(&v);
    assert_eq!(c.staged, 1);
    assert_eq!(c.untracked, 1);
    assert_eq!(c.deleted, 1);
    assert_eq!(c.renamed, 1);
    assert_eq!(c.modified, 1);
    assert_eq!(c.conflicted, 1);
    let mut reversed = v.clone();
    reversed.reverse();
    assert_eq!(RepoStatus::from_statuses(&reversed), c);
}

#[test]
fn untouched_paths_leave_counts_clean() {
    let v = vec![flags(), flags()];
    assert!(RepoStatus::from_statuses(&v).is_clean());
    assert!(RepoStatus::from_statuses(&Vec::new()).is_clean());
}

#[test]
fn flags_from_status_bits() {
    let s = PathStatus::from_bits(INDEX_NEW | WT_MODIFIED | CONFLICTED);
    assert_eq!(s, PathStatus { index_new: true, wt_modified: true, conflicted: true, ..flags() });
    let all = PathStatus::from_bits(
        INDEX_NEW | INDEX_MODIFIED | INDEX_DELETED | INDEX_RENAMED | WT_NEW | WT_MODIFIED
            | WT_DELETED | WT_RENAMED | CONFLICTED,
    );
    assert!(all.index_modified && all.index_deleted && all.index_renamed && all.wt_new);
    assert!(all.wt_deleted && all.wt_renamed);
    assert_eq!(PathStatus::from_bits(0), flags());
    assert_eq!(git2::Status::INDEX_NEW.bits(), INDEX_NEW);
    assert_eq!(git2::Status::WT_RENAMED.bits(), WT_RENAMED);
    assert_eq!(git2::Status::CONFLICTED.bits(), CONFLICTED);
}

#[test]
fn head_file_names_its_branch() {
    assert_eq!(branch_from_head_file("ref: refs/heads/main\n"), Some("main".to_string()));
    assert_eq!(branch_from_head_file("  ref: refs/heads/feature/x \r\nmore"), Some("x".to_string()));
    assert_eq!(branch_from_head_file("plain"), Some("plain".to_string()));
    assert_eq!(branch_from_head_file("ref: refs/heads/\n"), Some(String::new()));
    assert_eq!(branch_from_head_file("\n"), Some(String::new()));
    assert_eq!(branch_from_head_file(""), None);
}

#[test]
fn upstream_revision_name() {
    assert_eq!(upstream_name("main"), "main@{upstream}");
}
