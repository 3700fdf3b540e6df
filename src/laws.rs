use vstd::prelude::*;
use crate::paths::{ancestor, ancestor_count, git_of, mzr_of, PathModel};
use crate::top_dirs::{any_set, is_nearest, lemma_nearest_unique, nearest_ancestor, proposed_root};

verus! {

/// What a filesystem entry is.
pub enum EntryKind {
    File,
    Dir,
}

/// A filesystem as a map from each existing path to what it is.
pub type FsModel = Map<PathModel, EntryKind>;

pub open spec fn is_dir_in(fs: FsModel, p: PathModel) -> bool {
    fs.contains_key(p) && fs[p] == EntryKind::Dir
}

/// The answers to "does the metadata directory exist as a directory" for
/// each ancestor of `start`, nearest first.
pub open spec fn mzr_probes(fs: FsModel, start: PathModel) -> Seq<bool> {
    Seq::new(ancestor_count(start) as nat, |k: int| is_dir_in(fs, mzr_of(ancestor(start, k))))
}

/// The answers to "does the git marker exist, whatever its kind" for each
/// ancestor of `start`, nearest first.
pub open spec fn git_probes(fs: FsModel, start: PathModel) -> Seq<bool> {
    Seq::new(ancestor_count(start) as nat, |k: int| fs.contains_key(git_of(ancestor(start, k))))
}

/// `q` is `p` or one of the directories above it, short of the top itself.
pub open spec fn leads_to(q: PathModel, p: PathModel) -> bool {
    &&& q.rooted == p.rooted
    &&& 1 <= q.parts.len() <= p.parts.len()
    &&& q.parts == p.parts.take(q.parts.len() as int)
}

/// The filesystem after creating the directory `p` together with every
/// missing directory above it; what existed stays as it was.
pub open spec fn with_dirs_created(fs: FsModel, p: PathModel) -> FsModel {
    Map::new(
        |q: PathModel| fs.contains_key(q) || leads_to(q, p),
        |q: PathModel|
            if fs.contains_key(q) {
                fs[q]
            } else {
                EntryKind::Dir
            },
    )
}

/// If the metadata directory of the ancestor `k` levels above `d` exists and
/// no nearer ancestor has one, the search from `d` resolves to that ancestor.
pub proof fn lemma_nearest_marker_wins(fs: FsModel, d: PathModel, k: int)
    requires
        0 <= k < ancestor_count(d),
        is_dir_in(fs, mzr_of(ancestor(d, k))),
        forall|j: int| 0 <= j < k ==> !is_dir_in(fs, #[trigger] mzr_of(ancestor(d, j))),
    ensures
        nearest_ancestor(d, mzr_probes(fs, d)) == Some(ancestor(d, k)),
{
    let flags = mzr_probes(fs, d);
    assert(is_nearest(flags, k));
    lemma_nearest_unique(flags, k);
}

/// If no ancestor of `d`, `d` included, has its metadata directory, the
/// search from `d` finds nothing.
pub proof fn lemma_no_marker_not_found(fs: FsModel, d: PathModel)
    requires
        forall|j: int| 0 <= j < ancestor_count(d) ==> !is_dir_in(fs, #[trigger] mzr_of(ancestor(d, j))),
    ensures
        nearest_ancestor(d, mzr_probes(fs, d)) is None,
{
    let flags = mzr_probes(fs, d);
    assert(!any_set(flags)) by {
        assert forall|j: int| 0 <= j < flags.len() implies !flags[j] by {
            assert(!is_dir_in(fs, mzr_of(ancestor(d, j))));
        }
    }
}

/// A git marker of either kind, file or directory, in the ancestor `k`
/// levels above `d` is found by the fallback when no nearer ancestor has one.
pub proof fn lemma_git_marker_of_either_kind(fs: FsModel, d: PathModel, k: int, kind: EntryKind)
    requires
        0 <= k < ancestor_count(d),
        forall|j: int| 0 <= j < k ==> !fs.contains_key(#[trigger] git_of(ancestor(d, j))),
    ensures
        nearest_ancestor(d, git_probes(fs.insert(git_of(ancestor(d, k)), kind), d)) == Some(
            ancestor(d, k),
        ),
{
    let fs2 = fs.insert(git_of(ancestor(d, k)), kind);
    let flags = git_probes(fs2, d);
    assert forall|j: int| 0 <= j < k implies !flags[j] by {
        assert(git_of(ancestor(d, j)).parts.len() != git_of(ancestor(d, k)).parts.len());
        assert(!fs.contains_key(git_of(ancestor(d, j))));
    }
    assert(is_nearest(flags, k));
    lemma_nearest_unique(flags, k);
}

/// After a failed search from `d`, creating the metadata directory of the
/// proposed root (with whatever directories above it are missing) makes the
/// next search from `d` resolve to exactly that root. The creation must be
/// able to succeed: the metadata path is not taken by a file.
pub proof fn lemma_created_root_is_found(fs: FsModel, d: PathModel)
    requires
        nearest_ancestor(d, mzr_probes(fs, d)) is None,
        !(fs.contains_key(mzr_of(proposed_root(d, git_probes(fs, d)))) && fs[mzr_of(
            proposed_root(d, git_probes(fs, d)),
        )] == EntryKind::File),
    ensures
        nearest_ancestor(
            d,
            mzr_probes(with_dirs_created(fs, mzr_of(proposed_root(d, git_probes(fs, d)))), d),
        ) == Some(proposed_root(d, git_probes(fs, d))),
{
    let gflags = git_probes(fs, d);
    let c = proposed_root(d, gflags);
    let k: int = if any_set(gflags) {
        choose|i: int| is_nearest(gflags, i)
    } else {
        0
    };
    if any_set(gflags) {
        let w = choose|i: int| 0 <= i < gflags.len() && gflags[i];
        assert(exists|i: int| is_nearest(gflags, i)) by {
            lemma_first_set_exists(gflags, w);
        }
    }
    assert(d.parts.take(d.parts.len() as int) =~= d.parts);
    assert(c == ancestor(d, k));
    let fs2 = with_dirs_created(fs, mzr_of(c));
    let mflags = mzr_probes(fs, d);
    assert(!any_set(mflags));
    assert(mzr_of(c).parts.take(mzr_of(c).parts.len() as int) =~= mzr_of(c).parts);
    assert(leads_to(mzr_of(c), mzr_of(c)));
    assert forall|j: int| 0 <= j < k implies !is_dir_in(fs2, #[trigger] mzr_of(ancestor(d, j))) by {
        assert(!mflags[j]);
        assert(!leads_to(mzr_of(ancestor(d, j)), mzr_of(c)));
    }
    lemma_nearest_marker_wins(fs2, d, k);
}

/// When some entry of `flags` holds, a first one does.
proof fn lemma_first_set_exists(flags: Seq<bool>, w: int)
    requires
        0 <= w < flags.len(),
        flags[w],
    ensures
        exists|i: int| is_nearest(flags, i),
    decreases w,
{
    if exists|j: int| 0 <= j < w && flags[j] {
        let j = choose|j: int| 0 <= j < w && flags[j];
        lemma_first_set_exists(flags, j);
    } else {
        assert(is_nearest(flags, w));
    }
}

} // verus!
