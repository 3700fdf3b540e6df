use vstd::prelude::*;

verus! {

/// The mathematical value of a path: whether it starts at the filesystem
/// root, and its components from the top down.
pub struct PathModel {
    pub rooted: bool,
    pub parts: Seq<Seq<char>>,
}

/// Name of the metadata directory that marks a workspace root.
pub open spec fn mzr_name() -> Seq<char> {
    seq!['.', 'm', 'z', 'r']
}

/// Name of the entry (a directory, or a file in a linked work tree) that marks
/// the root of a git checkout.
pub open spec fn git_name() -> Seq<char> {
    seq!['.', 'g', 'i', 't']
}

/// The path `p` with one more component `name` below it.
pub open spec fn child_of(p: PathModel, name: Seq<char>) -> PathModel {
    PathModel { rooted: p.rooted, parts: p.parts.push(name) }
}

/// The metadata directory that belongs to the work directory `w`.
pub open spec fn mzr_of(w: PathModel) -> PathModel {
    child_of(w, mzr_name())
}

/// The git marker that would sit directly in the directory `w`.
pub open spec fn git_of(w: PathModel) -> PathModel {
    child_of(w, git_name())
}

/// How many ancestors `p` has, counting `p` itself and the top of the path.
pub open spec fn ancestor_count(p: PathModel) -> int {
    p.parts.len() as int + 1
}

/// The ancestor of `p` that lies `k` levels above it (`k == 0` is `p`).
pub open spec fn ancestor(p: PathModel, k: int) -> PathModel {
    PathModel { rooted: p.rooted, parts: p.parts.take(p.parts.len() - k) }
}

/// An executable path: a root flag and the components as strings.
#[derive(Debug, PartialEq, Eq)]
pub struct DirPath {
    pub rooted: bool,
    pub parts: Vec<String>,
}

impl View for DirPath {
    type V = PathModel;

    open spec fn view(&self) -> PathModel {
        PathModel { rooted: self.rooted, parts: self.parts@.map_values(|s: String| s@) }
    }
}

impl DirPath {
    /// A copy of the path with the same components.
    pub fn duplicate(&self) -> (r: DirPath)
        ensures
            r@ == self@,
    {
        let mut parts: Vec<String> = Vec::new();
        let mut i: usize = 0;
        while i < self.parts.len()
            invariant
                i <= self.parts.len(),
                parts@.len() == i,
                forall|j: int| 0 <= j < i ==> #[trigger] parts@[j]@ == self.parts@[j]@,
            decreases self.parts.len() - i,
        {
            parts.push(self.parts[i].clone());
            i = i + 1;
        }
        let r = DirPath { rooted: self.rooted, parts };
        assert(r@.parts =~= self@.parts);
        r
    }

    /// Moves to the parent directory. Returns `false`, leaving the path as it
    /// was, when the path has no parent.
    pub fn pop(&mut self) -> (moved: bool)
        ensures
            moved == (old(self)@.parts.len() > 0),
            moved ==> final(self)@ == ancestor(old(self)@, 1),
            !moved ==> final(self)@ == old(self)@,
    {
        if self.parts.len() == 0 {
            false
        } else {
            let ghost before = self@;
            self.parts.pop();
            assert(self@.parts =~= before.parts.take(before.parts.len() - 1));
            true
        }
    }

    /// The path with the component `name` appended.
    pub fn join(&self, name: &str) -> (r: DirPath)
        ensures
            r@ == child_of(self@, name@),
    {
        let mut r = self.duplicate();
        r.parts.push(name.to_owned());
        proof {
            assert(r@.parts =~= self@.parts.push(name@));
        }
        r
    }
}

/// A directory that the user treats as the top of a project.
#[derive(Debug, PartialEq, Eq)]
pub struct UserWorkDir {
    pub path: DirPath,
}

impl View for UserWorkDir {
    type V = PathModel;

    open spec fn view(&self) -> PathModel {
        self.path@
    }
}

impl UserWorkDir {
    pub fn new(path: &DirPath) -> (r: UserWorkDir)
        ensures
            r@ == path@,
    {
        UserWorkDir { path: path.duplicate() }
    }

    pub fn duplicate(&self) -> (r: UserWorkDir)
        ensures
            r@ == self@,
    {
        UserWorkDir { path: self.path.duplicate() }
    }

    /// Every ancestor of this directory, nearest first: the directory itself,
    /// its parent, and so on up to the top of the path.
    pub fn ancestors(&self) -> (r: Vec<UserWorkDir>)
        ensures
            r@.len() == ancestor_count(self@),
            forall|k: int| 0 <= k < r@.len() ==> #[trigger] r@[k]@ == ancestor(self@, k),
    {
        let mut r: Vec<UserWorkDir> = Vec::new();
        let mut dir = self.path.duplicate();
        assert(self@.parts.take(self@.parts.len() as int) =~= self@.parts);
        loop
            invariant
                r@.len() <= self@.parts.len(),
                dir@ == ancestor(self@, r@.len() as int),
                forall|k: int| 0 <= k < r@.len() ==> #[trigger] r@[k]@ == ancestor(self@, k),
            decreases self@.parts.len() - r@.len(),
        {
            r.push(UserWorkDir { path: dir.duplicate() });
            let ghost here = dir@;
            if !dir.pop() {
                return r;
            }
            assert(dir@.parts =~= ancestor(self@, r@.len() as int).parts);
        }
    }

    /// The git marker that would sit directly in this directory.
    pub fn git_marker(&self) -> (r: DirPath)
        ensures
            r@ == git_of(self@),
    {
        let r = self.path.join(".git");
        proof {
            reveal_strlit(".git");
            assert(".git"@ =~= git_name());
        }
        r
    }
}

/// The metadata directory of a work directory. It is only ever made from a
/// work directory, so it always ends in the reserved name.
#[derive(Debug, PartialEq, Eq)]
pub struct MzrDir {
    path: DirPath,
}

impl View for MzrDir {
    type V = PathModel;

    closed spec fn view(&self) -> PathModel {
        self.path@
    }
}

impl MzrDir {
    pub fn new(user_work_dir: &UserWorkDir) -> (r: MzrDir)
        ensures
            r@ == mzr_of(user_work_dir@),
    {
        let path = user_work_dir.path.join(".mzr");
        proof {
            reveal_strlit(".mzr");
            assert(".mzr"@ =~= mzr_name());
        }
        MzrDir { path }
    }

    pub fn path(&self) -> (r: &DirPath)
        ensures
            r@ == self@,
    {
        &self.path
    }

    pub fn duplicate(&self) -> (r: MzrDir)
        ensures
            r@ == self@,
    {
        MzrDir { path: self.path.duplicate() }
    }
}

} // verus!
