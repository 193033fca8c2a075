use vstd::prelude::*;

verus! {

/// The places searched for an asset file, in precedence order: an asset
/// folder in the working directory, one alongside the running
/// executable, one in its parent and grandparent directories, and a
/// user-scoped shared-data location.
#[derive(Clone, Copy, Debug, PartialEq, Eq, Structural)]
pub enum AssetDir {
    WorkingDir,
    ExeDir,
    ExeParent,
    ExeGrandparent,
    UserShare,
}

/// The fixed search order of the candidate asset directories.
pub open spec fn spec_candidate_dirs() -> Seq<AssetDir> {
    seq![
        AssetDir::WorkingDir,
        AssetDir::ExeDir,
        AssetDir::ExeParent,
        AssetDir::ExeGrandparent,
        AssetDir::UserShare,
    ]
}

/// The candidate asset directories, in the order in which they are
/// tried; the first whose candidate path exists wins.
pub fn candidate_dirs() -> (dirs: Vec<AssetDir>)
    ensures
        dirs@ == spec_candidate_dirs(),
{
    let mut dirs: Vec<AssetDir> = Vec::new();
    dirs.push(AssetDir::WorkingDir);
    dirs.push(AssetDir::ExeDir);
    dirs.push(AssetDir::ExeParent);
    dirs.push(AssetDir::ExeGrandparent);
    dirs.push(AssetDir::UserShare);
    proof {
        assert(dirs@ =~= spec_candidate_dirs());
    }
    dirs
}

/// Pick the first existing candidate, given for each candidate path (in
/// precedence order) whether it exists.  The result is the index of the
/// first existing candidate, or nothing when every candidate is absent.
/// The existence flags are injected, so the resolution ladder itself is
/// a pure function.
pub fn first_existing(exists: &Vec<bool>) -> (r: Option<usize>)
    ensures
        match r {
            Some(i) => i < exists@.len() && exists@[i as int]
                && forall|j: int| 0 <= j < i ==> !exists@[j],
            None => forall|j: int| 0 <= j < exists@.len() ==> !exists@[j],
        },
{
    let n = exists.len();
    let mut i: usize = 0;
    while i < n
        invariant
            n == exists@.len(),
            i <= n,
            forall|j: int| 0 <= j < i ==> !exists@[j],
        decreases n - i,
    {
        if exists[i] {
            return Some(i);
        }
        i += 1;
    }
    None
}

} // verus!
