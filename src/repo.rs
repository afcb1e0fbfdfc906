use vstd::prelude::*;
use vstd::string::StrSliceExecFns;
use std::path::Path;
use git2::{ErrorCode, Oid, Repository, RepositoryState};

use crate::changes::{PathStatus, RepoStatus, tally};
use crate::head::{branch_from_head_file, head_branch, upstream_name};

verus! {

#[verifier::external_type_specification]
#[verifier::external_body]
pub struct ExRepository(Repository);

#[verifier::external_type_specification]
#[verifier::external_body]
pub struct ExGitError(git2::Error);

#[verifier::external_type_specification]
#[verifier::external_body]
pub struct ExOid(Oid);

#[verifier::external_type_specification]
#[verifier::external_body]
pub struct ExPath(Path);


/// The operation a repository is in the middle of, if any.
#[derive(Clone, Copy, Debug, PartialEq, Eq, Structural)]
pub enum RepoState {
    Clean,
    Merge,
    Revert,
    RevertSequence,
    CherryPick,
    CherryPickSequence,
    Bisect,
    Rebase,
    RebaseInteractive,
    RebaseMerge,
    ApplyMailbox,
    ApplyMailboxOrRebase,
}

/// Why a query on a repository gave no value.
#[derive(Clone, Copy, Debug, PartialEq, Eq, Structural)]
pub enum RepoError {
    /// No branch name could be resolved.
    NoBranch,
    /// The branch has no upstream it tracks.
    NoUpstream,
    /// The repository engine reported an error.
    EngineFailure,
    /// No path was enumerated where every tracked path is asked for.
    EmptyStatus,
}

/// Which paths a change-set enumeration reports.
#[derive(Clone, Copy, Debug, PartialEq, Eq, Structural)]
pub enum StatusMode {
    /// Changed and untracked paths only; an empty enumeration is a clean tree.
    ChangedOnly,
    /// Every tracked path, unmodified ones included; an empty enumeration means
    /// the repository tracks nothing, which is an error.
    AllTracked,
}

/// The options under which the engine enumerates paths.
#[derive(Clone, Copy, Debug, PartialEq, Eq, Structural)]
pub struct StatusConfig {
    pub include_untracked: bool,
    pub include_unmodified: bool,
    pub renames_from_rewrites: bool,
    pub renames_head_to_index: bool,
}

/// The enumeration options for a mode: untracked paths always, unmodified
/// paths only where every tracked path is asked for, and no rename detection.
pub fn status_config(mode: StatusMode) -> (c: StatusConfig)
    ensures
        c.include_untracked,
        c.include_unmodified == (mode == StatusMode::AllTracked),
        !c.renames_from_rewrites,
        !c.renames_head_to_index,
{
    StatusConfig {
        include_untracked: true,
        include_unmodified: matches!(mode, StatusMode::AllTracked),
        renames_from_rewrites: false,
        renames_head_to_index: false,
    }
}

/// The outcome of reading HEAD.
#[derive(Debug)]
pub enum HeadLookup {
    /// HEAD resolved; the short name of its reference, if it has one.
    Resolved(Option<String>),
    /// HEAD points at a branch that has no commit yet.
    Unborn,
    /// Any other failure.
    Failed,
}

/// Relies on git2's `Repository::discover`: searches upward from a path for a
/// repository; `None` when there is none.
#[verifier::external_body]
fn discover(path: &Path) -> Option<Repository> {
    Repository::discover(path).ok()
}

/// Relies on git2's `Repository::head`, `Error::code` and `Reference::shorthand`:
/// the short name of HEAD's reference, with the unborn-branch error code told
/// apart from every other error.
#[verifier::external_body]
fn read_head(repo: &Repository) -> HeadLookup {
    match repo.head() {
        Ok(head) => HeadLookup::Resolved(head.shorthand().ok().map(str::to_owned)),
        Err(e) if e.code() == ErrorCode::UnbornBranch => HeadLookup::Unborn,
        Err(_) => HeadLookup::Failed,
    }
}

/// Relies on git2's `Repository::path`: the repository's metadata directory,
/// where that path is valid UTF-8.
#[verifier::external_body]
fn metadata_dir(repo: &Repository) -> Option<String> {
    repo.path().to_str().map(str::to_owned)
}

/// Relies on git2's `Repository::state`: the operation in progress.
#[verifier::external_body]
fn read_state(repo: &Repository) -> RepoState {
    match repo.state() {
        RepositoryState::Clean => RepoState::Clean,
        RepositoryState::Merge => RepoState::Merge,
        RepositoryState::Revert => RepoState::Revert,
        RepositoryState::RevertSequence => RepoState::RevertSequence,
        RepositoryState::CherryPick => RepoState::CherryPick,
        RepositoryState::CherryPickSequence => RepoState::CherryPickSequence,
        RepositoryState::Bisect => RepoState::Bisect,
        RepositoryState::Rebase => RepoState::Rebase,
        RepositoryState::RebaseInteractive => RepoState::RebaseInteractive,
        RepositoryState::RebaseMerge => RepoState::RebaseMerge,
        RepositoryState::ApplyMailbox => RepoState::ApplyMailbox,
        RepositoryState::ApplyMailboxOrRebase => RepoState::ApplyMailboxOrRebase,
    }
}

/// Relies on git2's `Repository::revparse_single` and `Object::id`: the object
/// that a revision names.
#[verifier::external_body]
fn revparse_id(repo: &Repository, spec: &str) -> Result<Oid, git2::Error> {
    match repo.revparse_single(spec) {
        Ok(object) => Ok(object.id()),
        Err(e) => Err(e),
    }
}

/// Relies on git2's `Repository::graph_ahead_behind`: the commits unique to
/// each of two tips.
#[verifier::external_body]
fn count_ahead_behind(repo: &Repository, local: &Oid, upstream: &Oid) -> Result<(usize, usize), git2::Error> {
    repo.graph_ahead_behind(*local, *upstream)
}

/// Relies on git2's `StatusOptions`, `Repository::statuses` and `Status::bits`:
/// the raw flags of each path that the options select.
#[verifier::external_body]
fn path_statuses(repo: &Repository, config: &StatusConfig) -> Result<Vec<PathStatus>, git2::Error> {
    let mut options = git2::StatusOptions::new();
    options.include_untracked(config.include_untracked)
        .include_unmodified(config.include_unmodified)
        .renames_from_rewrites(config.renames_from_rewrites)
        .renames_head_to_index(config.renames_head_to_index);
    match repo.statuses(Some(&mut options)) {
        Ok(statuses) => Ok(statuses.iter().map(|e| PathStatus::from_bits(e.status().bits())).collect()),
        Err(e) => Err(e),
    }
}

/// Relies on git2's `Repository::stash_foreach`: visits each stash entry.
#[verifier::external_body]
fn count_stashes(repo: &mut Repository) -> Result<usize, git2::Error> {
    let mut count: usize = 0;
    match repo.stash_foreach(|_, _, _| note_stash(&mut count)) {
        Ok(()) => Ok(count),
        Err(e) => Err(e),
    }
}

/// Counts one stash entry and asks for the next.
fn note_stash(count: &mut usize) -> (go_on: bool)
    ensures
        go_on,
        *final(count) as int == if *old(count) < usize::MAX { *old(count) + 1 } else { *old(count) as int },
{
    if *count < usize::MAX {
        *count = *count + 1;
    }
    true
}

/// The branch name that a HEAD lookup gives: the short name where HEAD
/// resolved; on an unborn branch, the name in the HEAD pointer file's text;
/// nothing on any other failure, whatever the file holds.
pub open spec fn branch_of(head: HeadLookup, head_file: Option<Seq<char>>) -> Option<Seq<char>> {
    match head {
        HeadLookup::Resolved(Some(s)) => Some(s@),
        HeadLookup::Resolved(None) => None,
        HeadLookup::Unborn => match head_file {
            Some(t) => head_branch(t),
            None => None,
        },
        HeadLookup::Failed => None,
    }
}

pub open spec fn opt_view(s: Option<String>) -> Option<Seq<char>> {
    match s {
        Some(x) => Some(x@),
        None => None,
    }
}

pub open spec fn opt_str_view(s: Option<&str>) -> Option<Seq<char>> {
    match s {
        Some(x) => Some(x@),
        None => None,
    }
}

impl HeadLookup {
    /// Whether the HEAD pointer file must be read to name the branch.
    pub fn needs_head_file(&self) -> (r: bool)
        ensures
            r == (*self is Unborn),
    {
        match self {
            HeadLookup::Unborn => true,
            _ => false,
        }
    }
}

/// Resolves the branch name from a HEAD lookup and, for an unborn branch, the
/// text of the HEAD pointer file.
pub fn resolve_branch(head: HeadLookup, head_file: Option<&str>) -> (r: Option<String>)
    ensures
        opt_view(r) == branch_of(head, opt_str_view(head_file)),
{
    match head {
        HeadLookup::Resolved(name) => name,
        HeadLookup::Unborn => match head_file {
            Some(text) => branch_from_head_file(text),
            None => None,
        },
        HeadLookup::Failed => None,
    }
}

/// Classifies the outcome of a change-set enumeration.
pub fn classify(outcome: Result<Vec<PathStatus>, git2::Error>, mode: StatusMode) -> (r: Result<
    RepoStatus,
    RepoError,
>)
    ensures
        match (outcome, r) {
            (Err(_), Err(e)) => e == RepoError::EngineFailure,
            (Ok(v), Err(e)) => v@.len() == 0 && mode == StatusMode::AllTracked && e
                == RepoError::EmptyStatus,
            (Ok(v), Ok(c)) => !(v@.len() == 0 && mode == StatusMode::AllTracked) && c@ == tally(v@),
            (Err(_), Ok(_)) => false,
        },
{
    match outcome {
        Err(_) => Err(RepoError::EngineFailure),
        Ok(v) => {
            if v.len() == 0 && matches!(mode, StatusMode::AllTracked) {
                Err(RepoError::EmptyStatus)
            } else {
                Ok(RepoStatus::from_statuses(&v))
            }
        },
    }
}

/// The divergence that the outcomes of the engine's three calls give: the
/// branch's revision, then its upstream's (reached only where the first
/// resolved), then the count (reached only where both resolved).
pub fn settle_divergence(
    local: &Result<Oid, git2::Error>,
    upstream: &Option<Result<Oid, git2::Error>>,
    count: Option<Result<(usize, usize), git2::Error>>,
) -> (r: Result<(usize, usize), RepoError>)
    requires
        local is Ok <==> upstream is Some,
        (upstream is Some && upstream->Some_0 is Ok) <==> count is Some,
    ensures
        local is Err ==> r == Err::<(usize, usize), RepoError>(RepoError::EngineFailure),
        local is Ok && upstream->Some_0 is Err ==> r == Err::<(usize, usize), RepoError>(
            RepoError::NoUpstream,
        ),
        count matches Some(Err(_)) ==> r == Err::<(usize, usize), RepoError>(
            RepoError::EngineFailure,
        ),
        count matches Some(Ok(p)) ==> r == Ok::<(usize, usize), RepoError>(p),
{
    match local {
        Err(_) => Err(RepoError::EngineFailure),
        Ok(_) => match upstream {
            Some(Err(_)) => Err(RepoError::NoUpstream),
            _ => match count {
                Some(Ok(p)) => Ok(p),
                _ => Err(RepoError::EngineFailure),
            },
        },
    }
}

/// The stash count that an enumeration outcome gives: a failure counts as none.
pub fn stash_count_of(outcome: Result<usize, git2::Error>) -> (r: usize)
    ensures
        match outcome {
            Ok(n) => r == n,
            Err(_) => r == 0,
        },
{
    match outcome {
        Ok(n) => n,
        Err(_) => 0,
    }
}

/// The HEAD pointer file inside a metadata directory.
pub open spec fn head_path_of(dir: Seq<char>) -> Seq<char> {
    if dir.len() > 0 && dir.last() == '/' {
        dir + "HEAD"@
    } else {
        dir + "/HEAD"@
    }
}

/// Joins the HEAD pointer file's name onto a metadata directory.
pub fn join_head(dir: &str) -> (r: String)
    ensures
        r@ == head_path_of(dir@),
{
    let mut path = dir.to_string();
    let n = dir.unicode_len();
    if n > 0 && dir.get_char(n - 1) == '/' {
        path.append("HEAD");
    } else {
        path.append("/HEAD");
    }
    path
}

/// What one pass over a repository found; each part stands on its own.
pub struct RepoSummary {
    pub branch: Option<String>,
    pub state: RepoState,
    pub divergence: Result<(usize, usize), RepoError>,
    pub changes: Result<RepoStatus, RepoError>,
    pub stash_count: usize,
}

/// A repository located on disk.
pub struct GitRepo {
    repo: Repository,
}

impl GitRepo {
    /// Locates the repository at or above `path`; `None` outside any repository.
    pub fn new(path: &Path) -> Option<Self> {
        match discover(path) {
            Some(repo) => Some(GitRepo { repo }),
            None => None,
        }
    }

    /// Reads HEAD.
    pub fn head(&self) -> HeadLookup {
        read_head(&self.repo)
    }

    /// The path of the HEAD pointer file in the repository's metadata
    /// directory; `None` where that directory's path is not UTF-8.
    pub fn head_file_path(&self) -> (r: Option<String>) {
        match metadata_dir(&self.repo) {
            Some(dir) => Some(join_head(dir.as_str())),
            None => None,
        }
    }

    /// The operation in progress.
    pub fn state(&self) -> RepoState {
        read_state(&self.repo)
    }

    /// Commits on the branch and not on its upstream, and the other way round.
    pub fn get_ahead_behind(&self, branch: Option<&str>) -> (r: Result<(usize, usize), RepoError>)
        ensures
            branch is None <==> r == Err::<(usize, usize), RepoError>(RepoError::NoBranch),
            r is Err ==> r->Err_0 != RepoError::EmptyStatus,
    {
        let name = match branch {
            Some(name) => name,
            None => return Err(RepoError::NoBranch),
        };
        let local = revparse_id(&self.repo, name);
        let upstream = match &local {
            Ok(_) => {
                let tracking = upstream_name(name);
                Some(revparse_id(&self.repo, tracking.as_str()))
            },
            Err(_) => None,
        };
        let count = match (&local, &upstream) {
            (Ok(l), Some(Ok(u))) => Some(count_ahead_behind(&self.repo, l, u)),
            _ => None,
        };
        settle_divergence(&local, &upstream, count)
    }

    /// Counts the paths with pending changes.
    pub fn status(&self, mode: StatusMode) -> (r: Result<RepoStatus, RepoError>)
        ensures
            r is Err ==> (r->Err_0 == RepoError::EngineFailure || (r->Err_0
                == RepoError::EmptyStatus && mode == StatusMode::AllTracked)),
    {
        let config = status_config(mode);
        classify(path_statuses(&self.repo, &config), mode)
    }

    /// The number of stash entries; none where they cannot be enumerated.
    pub fn get_stash_count(&mut self) -> usize {
        stash_count_of(count_stashes(&mut self.repo))
    }

    /// Runs every query for a resolved branch name; a failure in one leaves
    /// the others standing.
    pub fn summary(&mut self, branch: Option<String>, mode: StatusMode) -> (r: RepoSummary)
        ensures
            r.branch == branch,
            branch is None <==> r.divergence == Err::<(usize, usize), RepoError>(
                RepoError::NoBranch,
            ),
            r.divergence is Err ==> r.divergence->Err_0 != RepoError::EmptyStatus,
            r.changes is Err ==> (r.changes->Err_0 == RepoError::EngineFailure || (
            r.changes->Err_0 == RepoError::EmptyStatus && mode == StatusMode::AllTracked)),
    {
        let state = self.state();
        let divergence = match &branch {
            Some(b) => self.get_ahead_behind(Some(b.as_str())),
            None => self.get_ahead_behind(None),
        };
        let changes = self.status(mode);
        let stash_count = self.get_stash_count();
        RepoSummary { branch, state, divergence, changes, stash_count }
    }
}

} // verus!
