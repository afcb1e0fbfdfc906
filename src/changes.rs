use vstd::prelude::*;

verus! {

/// Bit values of libgit2's `git_status_t`, as git2's `Status` flags carry them.
pub const INDEX_NEW: u32 = 1;

pub const INDEX_MODIFIED: u32 = 2;

pub const INDEX_DELETED: u32 = 4;

pub const INDEX_RENAMED: u32 = 8;

pub const WT_NEW: u32 = 128;

pub const WT_MODIFIED: u32 = 256;

pub const WT_DELETED: u32 = 512;

pub const WT_RENAMED: u32 = 2048;

pub const CONFLICTED: u32 = 32768;

/// The raw flags that the repository engine reports for one path, as plain booleans.
#[derive(Clone, Copy, Debug, PartialEq, Eq, Structural, Default)]
pub struct PathStatus {
    pub index_new: bool,
    pub index_modified: bool,
    pub index_deleted: bool,
    pub index_renamed: bool,
    pub wt_new: bool,
    pub wt_modified: bool,
    pub wt_deleted: bool,
    pub wt_renamed: bool,
    pub conflicted: bool,
}

impl PathStatus {
    /// Reads the flags out of a raw status word.
    pub fn from_bits(bits: u32) -> (r: PathStatus)
        ensures
            r.index_new == (bits & INDEX_NEW != 0),
            r.index_modified == (bits & INDEX_MODIFIED != 0),
            r.index_deleted == (bits & INDEX_DELETED != 0),
            r.index_renamed == (bits & INDEX_RENAMED != 0),
            r.wt_new == (bits & WT_NEW != 0),
            r.wt_modified == (bits & WT_MODIFIED != 0),
            r.wt_deleted == (bits & WT_DELETED != 0),
            r.wt_renamed == (bits & WT_RENAMED != 0),
            r.conflicted == (bits & CONFLICTED != 0),
    {
        PathStatus {
            index_new: bits & INDEX_NEW != 0,
            index_modified: bits & INDEX_MODIFIED != 0,
            index_deleted: bits & INDEX_DELETED != 0,
            index_renamed: bits & INDEX_RENAMED != 0,
            wt_new: bits & WT_NEW != 0,
            wt_modified: bits & WT_MODIFIED != 0,
            wt_deleted: bits & WT_DELETED != 0,
            wt_renamed: bits & WT_RENAMED != 0,
            conflicted: bits & CONFLICTED != 0,
        }
    }
}

/// A path with an unresolved merge conflict.
pub open spec fn conflicts(s: PathStatus) -> bool {
    s.conflicted
}

/// A path deleted in the working tree or in the index.
pub open spec fn deletes(s: PathStatus) -> bool {
    s.wt_deleted || s.index_deleted
}

/// A path renamed in the working tree or in the index.
pub open spec fn renames(s: PathStatus) -> bool {
    s.wt_renamed || s.index_renamed
}

/// A path modified in the working tree.
pub open spec fn modifies(s: PathStatus) -> bool {
    s.wt_modified
}

/// A path modified in, or newly added to, the index.
pub open spec fn stages(s: PathStatus) -> bool {
    s.index_modified || s.index_new
}

/// A path new in the working tree and not yet tracked.
pub open spec fn untracks(s: PathStatus) -> bool {
    s.wt_new
}

pub open spec fn one_if(b: bool) -> nat {
    if b {
        1
    } else {
        0
    }
}

/// The six counters as mathematical naturals.
pub struct Tally {
    pub conflicted: nat,
    pub deleted: nat,
    pub renamed: nat,
    pub modified: nat,
    pub staged: nat,
    pub untracked: nat,
}

impl Tally {
    pub open spec fn zero() -> Tally {
        Tally { conflicted: 0, deleted: 0, renamed: 0, modified: 0, staged: 0, untracked: 0 }
    }

    pub open spec fn plus(self, o: Tally) -> Tally {
        Tally {
            conflicted: self.conflicted + o.conflicted,
            deleted: self.deleted + o.deleted,
            renamed: self.renamed + o.renamed,
            modified: self.modified + o.modified,
            staged: self.staged + o.staged,
            untracked: self.untracked + o.untracked,
        }
    }

    pub open spec fn is_zero(self) -> bool {
        self == Tally::zero()
    }
}

/// What one path adds to the counters.
pub open spec fn contribution(s: PathStatus) -> Tally {
    Tally {
        conflicted: one_if(conflicts(s)),
        deleted: one_if(deletes(s)),
        renamed: one_if(renames(s)),
        modified: one_if(modifies(s)),
        staged: one_if(stages(s)),
        untracked: one_if(untracks(s)),
    }
}

/// Whether a path adds to any counter at all.
pub open spec fn touches(s: PathStatus) -> bool {
    conflicts(s) || deletes(s) || renames(s) || modifies(s) || stages(s) || untracks(s)
}

/// The counters over an enumeration of paths.
pub open spec fn tally(s: Seq<PathStatus>) -> Tally
    decreases s.len(),
{
    if s.len() == 0 {
        Tally::zero()
    } else {
        tally(s.drop_last()).plus(contribution(s.last()))
    }
}

/// Per-path change counts of a working tree.
#[derive(Clone, Copy, Debug, PartialEq, Eq, Structural)]
pub struct RepoStatus {
    pub conflicted: usize,
    pub deleted: usize,
    pub renamed: usize,
    pub modified: usize,
    pub staged: usize,
    pub untracked: usize,
}

impl View for RepoStatus {
    type V = Tally;

    open spec fn view(&self) -> Tally {
        Tally {
            conflicted: self.conflicted as nat,
            deleted: self.deleted as nat,
            renamed: self.renamed as nat,
            modified: self.modified as nat,
            staged: self.staged as nat,
            untracked: self.untracked as nat,
        }
    }
}

impl Default for RepoStatus {
    fn default() -> (r: RepoStatus)
        ensures
            r@ == Tally::zero(),
    {
        RepoStatus::new()
    }
}

impl RepoStatus {
    pub open spec fn can_add(self, s: PathStatus) -> bool {
        let t = self@.plus(contribution(s));
        &&& t.conflicted <= usize::MAX
        &&& t.deleted <= usize::MAX
        &&& t.renamed <= usize::MAX
        &&& t.modified <= usize::MAX
        &&& t.staged <= usize::MAX
        &&& t.untracked <= usize::MAX
    }

    /// All counters zero.
    pub fn new() -> (r: RepoStatus)
        ensures
            r@ == Tally::zero(),
    {
        RepoStatus { conflicted: 0, deleted: 0, renamed: 0, modified: 0, staged: 0, untracked: 0 }
    }

    pub fn is_conflicted(status: PathStatus) -> (r: bool)
        ensures
            r == conflicts(status),
    {
        status.conflicted
    }

    pub fn is_deleted(status: PathStatus) -> (r: bool)
        ensures
            r == deletes(status),
    {
        status.wt_deleted || status.index_deleted
    }

    pub fn is_renamed(status: PathStatus) -> (r: bool)
        ensures
            r == renames(status),
    {
        status.wt_renamed || status.index_renamed
    }

    pub fn is_modified(status: PathStatus) -> (r: bool)
        ensures
            r == modifies(status),
    {
        status.wt_modified
    }

    pub fn is_staged(status: PathStatus) -> (r: bool)
        ensures
            r == stages(status),
    {
        status.index_modified || status.index_new
    }

    pub fn is_untracked(status: PathStatus) -> (r: bool)
        ensures
            r == untracks(status),
    {
        status.wt_new
    }

    /// No change of any kind was counted.
    pub fn is_clean(&self) -> (r: bool)
        ensures
            r == self@.is_zero(),
    {
        self.conflicted == 0 && self.deleted == 0 && self.renamed == 0 && self.modified == 0
            && self.staged == 0 && self.untracked == 0
    }

    /// Counts one more path.
    pub fn add(&mut self, s: PathStatus)
        requires
            old(self).can_add(s),
        ensures
            final(self)@ == old(self)@.plus(contribution(s)),
    {
        if RepoStatus::is_conflicted(s) {
            self.conflicted = self.conflicted + 1;
        }
        if RepoStatus::is_deleted(s) {
            self.deleted = self.deleted + 1;
        }
        if RepoStatus::is_renamed(s) {
            self.renamed = self.renamed + 1;
        }
        if RepoStatus::is_modified(s) {
            self.modified = self.modified + 1;
        }
        if RepoStatus::is_staged(s) {
            self.staged = self.staged + 1;
        }
        if RepoStatus::is_untracked(s) {
            self.untracked = self.untracked + 1;
        }
    }

    /// Counts every path of an enumeration.
    pub fn from_statuses(statuses: &Vec<PathStatus>) -> (r: RepoStatus)
        ensures
            r@ == tally(statuses@),
    {
        let mut acc = RepoStatus::new();
        let mut i: usize = 0;
        while i < statuses.len()
            invariant
                i <= statuses@.len(),
                acc@ == tally(statuses@.take(i as int)),
            decreases statuses@.len() - i,
        {
            let s = statuses[i];
            proof {
                lemma_tally_bounded(statuses@.take(i as int));
                assert(statuses@.take(i as int + 1).drop_last() == statuses@.take(i as int));
            }
            acc.add(s);
            i = i + 1;
        }
        assert(statuses@.take(i as int) == statuses@);
        acc
    }
}

/// No counter exceeds the number of paths.
pub proof fn lemma_tally_bounded(s: Seq<PathStatus>)
    ensures
        tally(s).conflicted <= s.len(),
        tally(s).deleted <= s.len(),
        tally(s).renamed <= s.len(),
        tally(s).modified <= s.len(),
        tally(s).staged <= s.len(),
        tally(s).untracked <= s.len(),
    decreases s.len(),
{
    if s.len() > 0 {
        lemma_tally_bounded(s.drop_last());
    }
}

/// Counting is additive: the counters over two enumerations, one after the
/// other, are the sums of the counters over each.
pub proof fn lemma_tally_additive(a: Seq<PathStatus>, b: Seq<PathStatus>)
    ensures
        tally(a + b) == tally(a).plus(tally(b)),
    decreases b.len(),
{
    if b.len() == 0 {
        assert(a + b == a);
    } else {
        lemma_tally_additive(a, b.drop_last());
        assert((a + b).drop_last() == a + b.drop_last());
    }
}

/// A path modified both in the index and in the working tree adds exactly one
/// to the staged count and exactly one to the modified count.
pub proof fn lemma_index_and_worktree_modified(s: PathStatus)
    requires
        s.index_modified,
        s.wt_modified,
    ensures
        contribution(s).staged == 1,
        contribution(s).modified == 1,
{
}

/// Adding paths never lowers a counter.
pub proof fn lemma_tally_monotone(a: Seq<PathStatus>, b: Seq<PathStatus>)
    ensures
        tally(a).conflicted <= tally(a + b).conflicted,
        tally(a).deleted <= tally(a + b).deleted,
        tally(a).renamed <= tally(a + b).renamed,
        tally(a).modified <= tally(a + b).modified,
        tally(a).staged <= tally(a + b).staged,
        tally(a).untracked <= tally(a + b).untracked,
{
    lemma_tally_additive(a, b);
}

/// The counters do not depend on the order of the enumeration: any two
/// enumerations of the same paths, in whatever order, give the same counters.
pub proof fn lemma_tally_permutation(s: Seq<PathStatus>, t: Seq<PathStatus>)
    requires
        s.to_multiset() == t.to_multiset(),
    ensures
        tally(s) == tally(t),
    decreases s.len(),
{
    broadcast use vstd::seq_lib::group_to_multiset_ensures;

    if s.len() == 0 {
        assert(s.to_multiset().len() == s.len());
        assert(t.to_multiset().len() == t.len());
        assert(t.len() == 0);
        assert(s == t);
    } else {
        let x = s.last();
        assert(s == s.drop_last().push(x));
        assert(s.to_multiset().count(x) > 0);
        assert(t.contains(x));
        let k = choose|k: int| 0 <= k < t.len() && t[k] == x;
        let t2 = t.remove(k);
        assert(t2.to_multiset() == t.to_multiset().remove(x));
        assert(s.drop_last().to_multiset() == s.to_multiset().remove(x));
        lemma_tally_permutation(s.drop_last(), t2);
        let a = t.take(k);
        let b = t.skip(k + 1);
        assert(t2 == a + b);
        assert(t == a + seq![x] + b);
        lemma_tally_additive(a + seq![x], b);
        lemma_tally_additive(a, seq![x]);
        lemma_tally_additive(a, b);
        assert(seq![x].drop_last() == Seq::<PathStatus>::empty());
        assert(seq![x].len() == 1);
        assert(seq![x].last() == x);
        assert(tally(Seq::<PathStatus>::empty()) == Tally::zero());
        assert(tally(seq![x]) == Tally::zero().plus(contribution(x)));
        assert(tally(s) == tally(s.drop_last()).plus(contribution(x)));
        assert(tally(t) == tally(a).plus(Tally::zero().plus(contribution(x))).plus(tally(b)));
        assert(tally(s) == tally(a).plus(tally(b)).plus(contribution(x)));
    }
}

/// The counters are clean exactly when no path adds to any of them, whatever
/// the order of the enumeration.
pub proof fn lemma_clean_iff_untouched(s: Seq<PathStatus>)
    ensures
        tally(s).is_zero() <==> (forall|i: int| 0 <= i < s.len() ==> !touches(#[trigger] s[i])),
    decreases s.len(),
{
    if s.len() > 0 {
        lemma_clean_iff_untouched(s.drop_last());
        if tally(s).is_zero() {
            assert forall|i: int| 0 <= i < s.len() implies !touches(#[trigger] s[i]) by {
                if i < s.len() - 1 {
                    assert(s[i] == s.drop_last()[i]);
                }
            }
        }
        if forall|i: int| 0 <= i < s.len() ==> !touches(#[trigger] s[i]) {
            assert forall|i: int| 0 <= i < s.drop_last().len() implies !touches(
                #[trigger] s.drop_last()[i],
            ) by {
                assert(s.drop_last()[i] == s[i]);
            }
            assert(!touches(s[s.len() - 1]));
        }
    }
}

} // verus!
