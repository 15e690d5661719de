//! Finding the agent-browser binary on `PATH`.
use vstd::prelude::*;
use crate::reset::{joined_path, path_join};

verus! {

/// The executable's file name on Windows and elsewhere.
pub open spec fn exe_file_name(windows: bool) -> Seq<char> {
    if windows {
        "agent-browser.exe"@
    } else {
        "agent-browser"@
    }
}

pub fn exe_name(windows: bool) -> (r: &'static str)
    ensures
        r@ == exe_file_name(windows),
{
    proof {
        reveal_strlit("agent-browser.exe");
        reveal_strlit("agent-browser");
    }
    if windows {
        "agent-browser.exe"
    } else {
        "agent-browser"
    }
}

/// Where the binary may be: the executable's name in each `PATH` directory, in order.
pub fn binary_candidates(dirs: &Vec<String>, windows: bool) -> (r: Vec<String>)
    ensures
        r@.len() == dirs@.len(),
        forall|i: int| 0 <= i < dirs@.len() ==> #[trigger] r@[i]@ == joined_path(dirs@[i]@, exe_file_name(windows)),
{
    let name = exe_name(windows);
    let mut out: Vec<String> = Vec::new();
    let mut i: usize = 0;
    while i < dirs.len()
        invariant
            i <= dirs@.len(),
            name@ == exe_file_name(windows),
            out@.len() == i,
            forall|j: int| 0 <= j < i ==> #[trigger] out@[j]@ == joined_path(dirs@[j]@, exe_file_name(windows)),
        decreases dirs@.len() - i,
    {
        out.push(path_join(dirs[i].as_str(), name));
        i = i + 1;
    }
    out
}

/// The first candidate that is a file: `found[i]` tells whether `candidates[i]` is one.
pub fn first_found(candidates: &Vec<String>, found: &Vec<bool>) -> (r: Option<String>)
    requires
        candidates@.len() == found@.len(),
    ensures
        r matches Some(c) ==> exists|i: int| 0 <= i < found@.len() && found@[i] && c@ == candidates@[i]@
            && forall|j: int| 0 <= j < i ==> !#[trigger] found@[j],
        r is None ==> forall|i: int| 0 <= i < found@.len() ==> !#[trigger] found@[i],
{
    let mut i: usize = 0;
    while i < found.len()
        invariant
            i <= found@.len(),
            candidates@.len() == found@.len(),
            forall|j: int| 0 <= j < i ==> !#[trigger] found@[j],
        decreases found@.len() - i,
    {
        if found[i] {
            return Some(candidates[i].clone());
        }
        i = i + 1;
    }
    None
}

} // verus!
