use ansi_term::Colour;
use git2::{BranchType, Oid, Repository, Signature};
use git_prompt::changes::RepoStatus;
use git_prompt::render::{
    ahead_behind_string, branch_string, decimal_string, render, stash_count_string, state_name,
    state_string, status_string,
};
use git_prompt::repo::{
    classify, join_head, resolve_branch, settle_divergence, stash_count_of, status_config,
    GitRepo, HeadLookup, RepoError, RepoState, StatusMode,
};
use tempfile::TempDir;

fn fresh_repo() -> (TempDir, Repository) {
    let dir = tempfile::tempdir().unwrap();
    let repo = Repository::init(dir.path()).unwrap();
    repo.set_head("refs/heads/main").unwrap();
    (dir, repo)
}

fn commit_on(repo: &Repository, refname: &str, parents: &[Oid]) -> Oid {
    let message = format!("commit on {}", refname);
    let sig = Signature::now("tester", "tester@example.com").unwrap();
    let tree_id = repo.index().unwrap().write_tree().unwrap();
    let tree = repo.find_tree(tree_id).unwrap();
    let parent_commits: Vec<_> = parents.iter().map(|p| repo.find_commit(*p).unwrap()).collect();
    let parent_refs: Vec<_> = parent_commits.iter().collect();
    repo.commit(Some(refname), &sig, &sig, &message, &tree, &parent_refs).unwrap()
}

fn new_file(dir: &TempDir, prefix: &str) -> String {
    let file = tempfile::Builder::new().prefix(prefix).keep(true).tempfile_in(dir.path()).unwrap();
    file.path().file_name().unwrap().to_str().unwrap().to_string()
}

fn without_escapes(s: &str) -> String {
    let mut out = String::new();
    let mut in_seq = false;
    for c in s.chars() {
        if in_seq {
            in_seq = c != 'm';
        } else if c == '\u{1b}' {
            in_seq = true;
        } else {
            out.push(c);
        }
    }
    out
}

fn branch_of(repo: &GitRepo) -> Option<String> {
    resolve_branch(repo.head(), None)
}

#[test]
fn branch_after_a_commit() {
    let (dir, repo) = fresh_repo();
    commit_on(&repo, "HEAD", &[]);
    let g = GitRepo::new(dir.path()).unwrap();
    assert!(!g.head().needs_head_file());
    assert_eq!(branch_of(&g), Some("main".to_string()));
}

#[test]
fn branch_of_fresh_repository() {
    let (dir, _repo) = fresh_repo();
    let g = GitRepo::new(dir.path()).unwrap();
    let head = g.head();
    assert!(head.needs_head_file());
    assert!(g.head_file_path().unwrap().ends_with("HEAD"));
    assert_eq!(resolve_branch(head, Some("ref: refs/heads/main\n")), Some("main".to_string()));
    assert_eq!(resolve_branch(HeadLookup::Failed, Some("ref: refs/heads/main\n")), None);
    assert_eq!(resolve_branch(HeadLookup::Resolved(None), None), None);
}

#[test]
fn locate_inside_and_outside() {
    let dir = tempfile::tempdir().unwrap();
    assert!(GitRepo::new(dir.path()).is_none());
    Repository::init(dir.path()).unwrap();
    assert!(GitRepo::new(dir.path()).is_some());
}

#[test]
fn divergence_identical_to_upstream() {
    let (dir, repo) = fresh_repo();
    let c0 = commit_on(&repo, "HEAD", &[]);
    repo.branch("base", &repo.find_commit(c0).unwrap(), false).unwrap();
    repo.find_branch("main", BranchType::Local).unwrap().set_upstream(Some("base")).unwrap();
    let g = GitRepo::new(dir.path()).unwrap();
    assert_eq!(g.get_ahead_behind(Some("main")), Ok((0, 0)));
}

#[test]
fn divergence_without_upstream() {
    let (dir, repo) = fresh_repo();
    commit_on(&repo, "HEAD", &[]);
    let g = GitRepo::new(dir.path()).unwrap();
    assert_eq!(g.get_ahead_behind(Some("main")), Err(RepoError::NoUpstream));
    assert_eq!(g.get_ahead_behind(None), Err(RepoError::NoBranch));
}

#[test]
fn divergence_three_ahead_two_behind() {
    let (dir, repo) = fresh_repo();
    let c0 = commit_on(&repo, "HEAD", &[]);
    repo.branch("base", &repo.find_commit(c0).unwrap(), false).unwrap();
    let mut tip = c0;
    for _ in 0..3 {
        tip = commit_on(&repo, "refs/heads/main", &[tip]);
    }
    let mut other = c0;
    for _ in 0..2 {
        other = commit_on(&repo, "refs/heads/base", &[other]);
    }
    repo.find_branch("main", BranchType::Local).unwrap().set_upstream(Some("base")).unwrap();
    let g = GitRepo::new(dir.path()).unwrap();
    assert_eq!(g.get_ahead_behind(Some("main")), Ok((3, 2)));
}

#[test]
fn empty_stash_counts_zero() {
    let (dir, repo) = fresh_repo();
    commit_on(&repo, "HEAD", &[]);
    let mut g = GitRepo::new(dir.path()).unwrap();
    assert_eq!(g.get_stash_count(), 0);
    assert_eq!(stash_count_of(Err(git2::Error::from_str("unsupported"))), 0);
    assert_eq!(stash_count_of(Ok(4)), 4);
}

#[test]
fn status_modes_on_empty_enumeration() {
    assert_eq!(classify(Ok(Vec::new()), StatusMode::ChangedOnly), Ok(RepoStatus::new()));
    assert_eq!(classify(Ok(Vec::new()), StatusMode::AllTracked), Err(RepoError::EmptyStatus));
    assert_eq!(
        classify(Err(git2::Error::from_str("broken")), StatusMode::ChangedOnly),
        Err(RepoError::EngineFailure)
    );
    let (dir, _repo) = fresh_repo();
    let g = GitRepo::new(dir.path()).unwrap();
    assert!(g.status(StatusMode::ChangedOnly).unwrap().is_clean());
    assert_eq!(g.status(StatusMode::AllTracked), Err(RepoError::EmptyStatus));
}

#[test]
fn summary_of_staged_and_untracked() {
    let (dir, repo) = fresh_repo();
    commit_on(&repo, "HEAD", &[]);
    let staged = new_file(&dir, "staged");
    let mut index = repo.index().unwrap();
    index.add_path(std::path::Path::new(&staged)).unwrap();
    index.write().unwrap();
    new_file(&dir, "untracked");
    let mut g = GitRepo::new(dir.path()).unwrap();
    let branch = resolve_branch(g.head(), None);
    assert_eq!(branch, Some("main".to_string()));
    let s = g.summary(branch, StatusMode::ChangedOnly);
    assert_eq!(s.branch, Some("main".to_string()));
    assert_eq!(s.state, RepoState::Clean);
    assert_eq!(s.divergence, Err(RepoError::NoUpstream));
    let c = s.changes.unwrap();
    assert_eq!((c.staged, c.untracked, c.modified, c.deleted, c.renamed, c.conflicted), (1, 1, 0, 0, 0, 0));
    assert_eq!(s.stash_count, 0);
    let text = render(&s);
    assert!(text.starts_with(&format!("on {}(", Colour::Cyan.bold().paint("main"))));
    assert_eq!(without_escapes(&text), "on main(su)");
}

#[test]
fn join_head_path() {
    assert_eq!(join_head("/r/.git/"), "/r/.git/HEAD");
    assert_eq!(join_head("/r/.git"), "/r/.git/HEAD");
}

#[test]
fn decimal_numbers() {
    assert_eq!(decimal_string(0), "0");
    assert_eq!(decimal_string(7), "7");
    assert_eq!(decimal_string(1203), "1203");
    assert_eq!(decimal_string(usize::MAX), usize::MAX.to_string());
}

#[test]
fn painted_text_is_prefix_text_reset() {
    assert_eq!(branch_string(Some("dev")), "\u{1b}[1;36mdev\u{1b}[0m");
    assert_eq!(state_string(RepoState::Merge), "|\u{1b}[34mmerge\u{1b}[0m|");
}

#[test]
fn rendered_parts() {
    assert_eq!(branch_string(Some("dev")), Colour::Cyan.bold().paint("dev").to_string());
    assert_eq!(branch_string(None), Colour::Cyan.bold().paint("unknown").to_string());
    assert_eq!(ahead_behind_string(Err(RepoError::NoUpstream)), "");
    assert_eq!(ahead_behind_string(Ok((0, 0))), " ");
    assert_eq!(
        ahead_behind_string(Ok((3, 2))),
        format!(" - {}3{}2", Colour::Yellow.paint("↑"), Colour::Yellow.paint("↓"))
    );
    assert_eq!(ahead_behind_string(Ok((0, 5))), format!(" - {}5", Colour::Yellow.paint("↓")));
    assert_eq!(state_name(RepoState::RebaseInteractive), "rebase-i");
    assert_eq!(state_string(RepoState::Clean), "");
    assert_eq!(state_string(RepoState::Merge), format!("|{}|", Colour::Blue.paint("merge")));
    assert_eq!(stash_count_string(0), "");
    assert_eq!(stash_count_string(12), format!(" {}(12)", Colour::Blue.paint("S")));
    assert_eq!(status_string(Err(RepoError::EngineFailure)), Colour::Red.paint("unknown").to_string());
    assert_eq!(status_string(Ok(RepoStatus::new())), Colour::Green.paint("").to_string());
    let mut c = RepoStatus::new();
    c.staged = 2;
    c.untracked = 1;
    assert_eq!(
        status_string(Ok(c)),
        format!(
            "{}{}{}{}",
            Colour::Green.paint("s"),
            Colour::Yellow.paint(""),
            Colour::Blue.paint("u"),
            Colour::Red.paint("")
        )
    );
}

#[test]
fn status_options_per_mode() {
    let changed = status_config(StatusMode::ChangedOnly);
    assert!(changed.include_untracked);
    assert!(!changed.include_unmodified);
    assert!(!changed.renames_from_rewrites);
    assert!(!changed.renames_head_to_index);
    let all = status_config(StatusMode::AllTracked);
    assert!(all.include_untracked);
    assert!(all.include_unmodified);
    assert!(!all.renames_from_rewrites && !all.renames_head_to_index);
}

#[test]
fn divergence_outcomes() {
    let fail = || git2::Error::from_str("failed");
    let id = Oid::zero();
    assert_eq!(settle_divergence(&Err(fail()), &None, None), Err(RepoError::EngineFailure));
    assert_eq!(settle_divergence(&Ok(id), &Some(Err(fail())), None), Err(RepoError::NoUpstream));
    assert_eq!(
        settle_divergence(&Ok(id), &Some(Ok(id)), Some(Err(fail()))),
        Err(RepoError::EngineFailure)
    );
    assert_eq!(settle_divergence(&Ok(id), &Some(Ok(id)), Some(Ok((0, 0)))), Ok((0, 0)));
    assert_eq!(settle_divergence(&Ok(id), &Some(Ok(id)), Some(Ok((3, 2)))), Ok((3, 2)));
}
