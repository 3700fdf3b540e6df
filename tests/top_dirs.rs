use mzr::paths::{DirPath, UserWorkDir};
use mzr::top_dirs::{find_git_repo, Confirmed, MzrDirNotFound, Provision, RootError, TopDirs};
use std::collections::HashSet;

fn abs(parts: &[&str]) -> DirPath {
    DirPath { rooted: true, parts: parts.iter().map(|p| p.to_string()).collect() }
}

fn work(parts: &[&str]) -> UserWorkDir {
    UserWorkDir::new(&abs(parts))
}

/// Answers for each ancestor of `start`, from a set of paths that exist as
/// directories.
fn mzr_answers(start: &UserWorkDir, dirs: &HashSet<(bool, Vec<String>)>) -> Vec<bool> {
    start
        .ancestors()
        .iter()
        .map(|a| {
            let m = mzr::paths::MzrDir::new(a);
            dirs.contains(&(m.path().rooted, m.path().parts.clone()))
        })
        .collect()
}

#[test]
fn nearest_marker_wins_over_farther_one() {
    let start = work(&["a", "b", "c"]);
    // ancestors: /a/b/c, /a/b, /a, /
    let found = TopDirs::find("build", &start, &vec![false, true, true, false]).unwrap();
    assert_eq!(found.user_work_dir().path, abs(&["a", "b"]));
    assert_eq!(*found.mzr_dir().path(), abs(&["a", "b", ".mzr"]));
}

#[test]
fn marker_in_start_dir_is_found() {
    let start = work(&["a", "b"]);
    let found = TopDirs::find_impl(&start, &vec![true, false, true]).unwrap();
    assert_eq!(found.user_work_dir().path, abs(&["a", "b"]));
}

#[test]
fn marker_at_filesystem_root_is_found() {
    let start = work(&["a", "b"]);
    let found = TopDirs::find_impl(&start, &vec![false, false, true]).unwrap();
    assert_eq!(found.user_work_dir().path, abs(&[]));
    assert_eq!(*found.mzr_dir().path(), abs(&[".mzr"]));
}

#[test]
fn no_marker_gives_not_found() {
    let start = work(&["a", "b"]);
    assert_eq!(TopDirs::find_impl(&start, &vec![false, false, false]), Err(MzrDirNotFound));
}

#[test]
fn strict_resolution_names_the_action() {
    let start = work(&["a"]);
    let r = TopDirs::find("deploy", &start, &vec![false, false]);
    assert_eq!(r, Err(RootError::RootNotFound("deploy".to_string())));
}

#[test]
fn ancestors_run_from_start_to_top() {
    let start = work(&["home", "u"]);
    let a = start.ancestors();
    assert_eq!(a.len(), 3);
    assert_eq!(a[0].path, abs(&["home", "u"]));
    assert_eq!(a[1].path, abs(&["home"]));
    assert_eq!(a[2].path, abs(&[]));
}

#[test]
fn relative_paths_stay_relative() {
    let start = UserWorkDir::new(&DirPath { rooted: false, parts: vec!["x".to_string()] });
    let a = start.ancestors();
    assert_eq!(a.len(), 2);
    assert_eq!(a[1].path, DirPath { rooted: false, parts: vec![] });
    let found = TopDirs::find_impl(&start, &vec![false, true]).unwrap();
    assert_eq!(
        *found.mzr_dir().path(),
        DirPath { rooted: false, parts: vec![".mzr".to_string()] }
    );
}

#[test]
fn git_marker_sits_in_the_directory() {
    assert_eq!(work(&["p"]).git_marker(), abs(&["p", ".git"]));
}

#[test]
fn pop_moves_to_parent_until_top() {
    let mut p = abs(&["a", "b"]);
    assert!(p.pop());
    assert_eq!(p, abs(&["a"]));
    assert!(p.pop());
    assert_eq!(p, abs(&[]));
    assert!(!p.pop());
    assert_eq!(p, abs(&[]));
}

#[test]
fn git_marker_file_found_like_directory() {
    // A `.git` file (linked work tree) answers "exists" just as a directory does.
    let start = work(&["repo", "wt", "src"]);
    let hint = find_git_repo(&start, &vec![false, true, false, true]).unwrap();
    assert_eq!(hint.path, abs(&["repo", "wt"]));
}

#[test]
fn no_git_marker_gives_no_hint() {
    let start = work(&["a"]);
    assert_eq!(find_git_repo(&start, &vec![false, false]), None);
}

#[test]
fn existing_root_is_returned_without_proposal() {
    let start = work(&["a", "b"]);
    match TopDirs::find_or_prompt_create(&start, &vec![false, true, false], &vec![true, false, false]) {
        Provision::Found(t) => assert_eq!(t.user_work_dir().path, abs(&["a"])),
        other => panic!("unexpected {:?}", other),
    }
}

#[test]
fn proposal_falls_back_to_start_without_git() {
    let start = work(&["a", "b"]);
    match TopDirs::find_or_prompt_create(&start, &vec![false; 3], &vec![false; 3]) {
        Provision::Propose { dirs, vcs_root_found } => {
            assert!(!vcs_root_found);
            assert_eq!(dirs.user_work_dir().path, abs(&["a", "b"]));
            assert_eq!(*dirs.mzr_dir().path(), abs(&["a", "b", ".mzr"]));
        }
        other => panic!("unexpected {:?}", other),
    }
}

#[test]
fn declining_gives_declined_init() {
    let dirs = TopDirs::from_user_work(work(&["a"]));
    let r = TopDirs::settle_init("sync", dirs, Confirmed::No);
    assert_eq!(r, Err(RootError::DeclinedInit("sync".to_string())));
}

#[test]
fn accepting_returns_the_proposed_root() {
    let dirs = TopDirs::from_user_work(work(&["a"]));
    let r = TopDirs::settle_init("sync", dirs, Confirmed::Yes).unwrap();
    assert_eq!(r.user_work_dir().path, abs(&["a"]));
    assert_eq!(*r.mzr_dir().path(), abs(&["a", ".mzr"]));
}

#[test]
fn git_checkout_root_is_proposed_and_then_found() {
    let start = work(&["home", "u", "proj", "src"]);
    let mut dirs: HashSet<(bool, Vec<String>)> = HashSet::new();
    // ancestors: /home/u/proj/src, /home/u/proj, /home/u, /home, /
    let git = vec![false, true, false, false, false];
    let proposal = TopDirs::find_or_prompt_create(&start, &mzr_answers(&start, &dirs), &git);
    let proposed = match proposal {
        Provision::Propose { dirs, vcs_root_found } => {
            assert!(vcs_root_found);
            dirs
        }
        other => panic!("unexpected {:?}", other),
    };
    assert_eq!(*proposed.mzr_dir().path(), abs(&["home", "u", "proj", ".mzr"]));
    let created = TopDirs::settle_init("work", proposed, Confirmed::Yes).unwrap();
    let m = created.mzr_dir().path();
    dirs.insert((m.rooted, m.parts.clone()));
    let deeper = work(&["home", "u", "proj", "src", "sub"]);
    let again = TopDirs::find("work", &deeper, &mzr_answers(&deeper, &dirs)).unwrap();
    assert_eq!(again.user_work_dir().path, abs(&["home", "u", "proj"]));
}

#[test]
fn created_root_with_missing_parents_is_found_again() {
    // Nothing exists below /; creating /x/y/z/.mzr also makes /x, /x/y, /x/y/z.
    let start = work(&["x", "y", "z"]);
    let mut dirs: HashSet<(bool, Vec<String>)> = HashSet::new();
    let proposal = TopDirs::find_or_prompt_create(&start, &mzr_answers(&start, &dirs), &vec![false; 4]);
    let proposed = match proposal {
        Provision::Propose { dirs, .. } => dirs,
        other => panic!("unexpected {:?}", other),
    };
    let created = TopDirs::settle_init("work", proposed, Confirmed::Yes).unwrap();
    let m = created.mzr_dir().path();
    for n in 1..=m.parts.len() {
        dirs.insert((m.rooted, m.parts[..n].to_vec()));
    }
    let again = TopDirs::find_impl(&start, &mzr_answers(&start, &dirs)).unwrap();
    assert_eq!(again, created);
}
