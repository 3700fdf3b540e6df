use vstd::prelude::*;
use crate::paths::{ancestor, ancestor_count, mzr_of, MzrDir, PathModel, UserWorkDir};

verus! {

/// `k` is the first index at which `flags` holds.
pub open spec fn is_nearest(flags: Seq<bool>, k: int) -> bool {
    &&& 0 <= k < flags.len()
    &&& flags[k]
    &&& forall|j: int| 0 <= j < k ==> !flags[j]
}

/// Some entry of `flags` holds.
pub open spec fn any_set(flags: Seq<bool>) -> bool {
    exists|k: int| 0 <= k < flags.len() && flags[k]
}

/// The nearest ancestor of `start` whose probe answered yes, where `flags[k]`
/// is the answer for the ancestor `k` levels up.
pub open spec fn nearest_ancestor(start: PathModel, flags: Seq<bool>) -> Option<PathModel> {
    if any_set(flags) {
        Some(ancestor(start, choose|k: int| is_nearest(flags, k)))
    } else {
        None
    }
}

/// Where a new metadata directory is proposed: the nearest git checkout if
/// there is one, else the starting directory.
pub open spec fn proposed_root(start: PathModel, git_exists: Seq<bool>) -> PathModel {
    match nearest_ancestor(start, git_exists) {
        Some(a) => a,
        None => start,
    }
}

/// The first index that holds is unique: it is the one that `choose` finds.
pub proof fn lemma_nearest_unique(flags: Seq<bool>, k: int)
    requires
        is_nearest(flags, k),
    ensures
        any_set(flags),
        (choose|i: int| is_nearest(flags, i)) == k,
{
    let c = choose|i: int| is_nearest(flags, i);
    if c < k {
        assert(!flags[c]);
    } else if c > k {
        assert(!flags[k]);
    }
}

/// The workspace root and its metadata directory, always paired so that the
/// metadata directory is the one derived from the root.
#[derive(Debug, PartialEq, Eq)]
pub struct TopDirs {
    mzr_dir: MzrDir,
    user_work_dir: UserWorkDir,
}

impl View for TopDirs {
    type V = PathModel;

    closed spec fn view(&self) -> PathModel {
        self.user_work_dir@
    }
}

/// No metadata directory was found in any ancestor of the starting directory.
#[derive(Debug, Clone, Copy, PartialEq, Eq)]
pub struct MzrDirNotFound;

/// The ways resolving a workspace root can fail. Each carries the text that
/// explains it: the attempted action, or what the filesystem reported.
#[derive(Debug, PartialEq, Eq)]
pub enum RootError {
    RootNotFound(String),
    AccessError(String),
    DeclinedInit(String),
}

/// The user's answer to a yes/no question.
#[derive(Debug, Clone, Copy, PartialEq, Eq)]
pub enum Confirmed {
    Yes,
    No,
}

/// What the permissive resolution does next: return a root that exists, or
/// ask whether to create the metadata directory of a proposed root.
#[derive(Debug, PartialEq, Eq)]
pub enum Provision {
    Found(TopDirs),
    Propose { dirs: TopDirs, vcs_root_found: bool },
}

/// Walks up from `start`, one level per answer in `flags`, and stops at the
/// first ancestor whose answer is yes.
fn walk_up(start: &UserWorkDir, flags: &Vec<bool>) -> (r: Option<UserWorkDir>)
    requires
        flags@.len() == ancestor_count(start@),
    ensures
        match nearest_ancestor(start@, flags@) {
            Some(a) => r matches Some(w) && w@ == a,
            None => r is None,
        },
{
    let mut dir = start.path.duplicate();
    let n = flags.len();
    let mut i: usize = 0;
    assert(start@.parts.take(start@.parts.len() as int) =~= start@.parts);
    loop
        invariant
            flags@.len() == ancestor_count(start@),
            n == flags@.len(),
            i < flags@.len(),
            dir@ == ancestor(start@, i as int),
            forall|j: int| 0 <= j < i ==> !flags@[j],
        decreases flags@.len() - i,
    {
        if flags[i] {
            proof {
                lemma_nearest_unique(flags@, i as int);
            }
            return Some(UserWorkDir::new(&dir));
        }
        let ghost here = dir@;
        if !dir.pop() {
            assert(!any_set(flags@));
            return None;
        }
        assert(here.parts.len() == start@.parts.len() - i);
        assert(dir@.parts =~= ancestor(start@, i + 1).parts);
        i = i + 1;
    }
}

impl TopDirs {
    #[verifier::type_invariant]
    spec fn paired(&self) -> bool {
        self.mzr_dir@ == mzr_of(self.user_work_dir@)
    }

    pub fn mzr_dir(&self) -> (r: &MzrDir)
        ensures
            r@ == mzr_of(self@),
    {
        proof {
            use_type_invariant(self);
        }
        &self.mzr_dir
    }

    pub fn user_work_dir(&self) -> (r: &UserWorkDir)
        ensures
            r@ == self@,
    {
        &self.user_work_dir
    }

    pub fn duplicate(&self) -> (r: TopDirs)
        ensures
            r@ == self@,
    {
        TopDirs::from_user_work(self.user_work_dir.duplicate())
    }

    pub fn from_user_work(user_work_dir: UserWorkDir) -> (r: TopDirs)
        ensures
            r@ == user_work_dir@,
    {
        TopDirs { mzr_dir: MzrDir::new(&user_work_dir), user_work_dir }
    }

    /// Strict resolution: the nearest ancestor of `start` (itself included)
    /// whose metadata directory exists, or `RootNotFound` naming `action`.
    /// `mzr_is_dir[k]` tells whether the metadata directory of the ancestor
    /// `k` levels up exists as a directory.
    pub fn find(action: &str, start: &UserWorkDir, mzr_is_dir: &Vec<bool>) -> (r: Result<
        TopDirs,
        RootError,
    >)
        requires
            mzr_is_dir@.len() == ancestor_count(start@),
        ensures
            match nearest_ancestor(start@, mzr_is_dir@) {
                Some(a) => r matches Ok(t) && t@ == a,
                None => r matches Err(RootError::RootNotFound(m)) && m@ == action@,
            },
    {
        match TopDirs::find_impl(start, mzr_is_dir) {
            Ok(top_dirs) => Ok(top_dirs),
            Err(MzrDirNotFound) => Err(RootError::RootNotFound(action.to_owned())),
        }
    }

    /// The nearest ancestor of `start` (itself included) whose metadata
    /// directory exists as a directory, by the answers in `mzr_is_dir`.
    pub fn find_impl(start: &UserWorkDir, mzr_is_dir: &Vec<bool>) -> (r: Result<
        TopDirs,
        MzrDirNotFound,
    >)
        requires
            mzr_is_dir@.len() == ancestor_count(start@),
        ensures
            match nearest_ancestor(start@, mzr_is_dir@) {
                Some(a) => r matches Ok(t) && t@ == a,
                None => r is Err,
            },
    {
        match walk_up(start, mzr_is_dir) {
            Some(dir) => Ok(TopDirs::from_user_work(dir)),
            None => Err(MzrDirNotFound),
        }
    }

    /// Permissive resolution. Returns the found root when there is one;
    /// otherwise proposes the nearest git checkout, or `start` when there is
    /// none, as the root whose metadata directory should be created.
    /// `git_exists[k]` tells whether the git marker exists, as a file or a
    /// directory, in the ancestor `k` levels up.
    pub fn find_or_prompt_create(
        start: &UserWorkDir,
        mzr_is_dir: &Vec<bool>,
        git_exists: &Vec<bool>,
    ) -> (r: Provision)
        requires
            mzr_is_dir@.len() == ancestor_count(start@),
            git_exists@.len() == ancestor_count(start@),
        ensures
            match nearest_ancestor(start@, mzr_is_dir@) {
                Some(a) => r matches Provision::Found(t) && t@ == a,
                None => r matches Provision::Propose { dirs, vcs_root_found } && dirs@
                    == proposed_root(start@, git_exists@) && vcs_root_found == nearest_ancestor(
                    start@,
                    git_exists@,
                ) is Some,
            },
    {
        match TopDirs::find_impl(start, mzr_is_dir) {
            Ok(top_dirs) => Provision::Found(top_dirs),
            Err(MzrDirNotFound) => match find_git_repo(start, git_exists) {
                None => Provision::Propose {
                    dirs: TopDirs::from_user_work(start.duplicate()),
                    vcs_root_found: false,
                },
                Some(git_dir) => Provision::Propose {
                    dirs: TopDirs::from_user_work(git_dir),
                    vcs_root_found: true,
                },
            },
        }
    }

    /// The end of the permissive resolution, once the user has answered
    /// whether to create the metadata directory of `dirs`. On `Yes` the
    /// caller creates that directory with its missing parents and then holds
    /// the returned root; on `No` nothing is to be created and the result is
    /// `DeclinedInit` naming `action`.
    pub fn settle_init(action: &str, dirs: TopDirs, answer: Confirmed) -> (r: Result<
        TopDirs,
        RootError,
    >)
        ensures
            match answer {
                Confirmed::Yes => r matches Ok(t) && t@ == dirs@,
                Confirmed::No => r matches Err(RootError::DeclinedInit(m)) && m@ == action@,
            },
    {
        match answer {
            Confirmed::Yes => Ok(dirs),
            Confirmed::No => Err(RootError::DeclinedInit(action.to_owned())),
        }
    }
}

/// The nearest ancestor of `start` (itself included) that holds a git
/// marker, by the answers in `git_exists`. A marker that is a file counts as
/// one that is a directory: linked work trees have a `.git` file.
pub fn find_git_repo(start: &UserWorkDir, git_exists: &Vec<bool>) -> (r: Option<UserWorkDir>)
    requires
        git_exists@.len() == ancestor_count(start@),
    ensures
        match nearest_ancestor(start@, git_exists@) {
            Some(a) => r matches Some(w) && w@ == a,
            None => r is None,
        },
{
    walk_up(start, git_exists)
}

} // verus!
