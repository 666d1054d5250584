//! Finding the backend's entry point, and the command line that starts it.
use vstd::prelude::*;
use crate::endpoint::Endpoint;
use crate::paths::{resolve_path, resolved};
use crate::settings::strings;
use crate::text::{joined, push_joined};

verus! {

/// How an entry point is started.
#[derive(Clone, Copy, Debug, PartialEq, Eq, Structural)]
pub enum EntryKind {
    /// A native executable, run directly.
    Executable,
    /// A script, run by an interpreter.
    Script,
}

/// A place where the backend's entry point may be.
#[derive(Debug)]
pub struct Candidate {
    pub path: String,
    pub kind: EntryKind,
}

/// No candidate exists; `probed` lists every path that was looked at, in
/// order.
#[derive(Debug)]
pub struct LocatorNotFound {
    pub probed: Vec<String>,
}

impl LocatorNotFound {
    pub open spec fn spec_message(self) -> Seq<char> {
        "backend entry point not found; probed: "@ + joined(strings(self.probed), ", "@)
    }

    /// Names every path probed, in order.
    pub fn message(&self) -> (r: String)
        ensures
            r@ == self.spec_message(),
    {
        let mut s = String::from_str("backend entry point not found; probed: ");
        push_joined(&mut s, &self.probed, ", ");
        s
    }
}

/// The paths of a candidate list, in order.
pub open spec fn candidate_paths(c: Seq<Candidate>) -> Seq<Seq<char>> {
    c.map_values(|x: Candidate| x.path@)
}

/// Candidate `i` exists and no earlier one does.
pub open spec fn is_first_existing(exists: Seq<bool>, i: int) -> bool {
    &&& 0 <= i < exists.len()
    &&& exists[i]
    &&& forall|j: int| 0 <= j < i ==> !exists[j]
}

/// The ordered candidates: the packaged executable `binary_name` and the
/// packaged script under `resource_dir`, then, in a development tree rooted
/// at `dev_root`, the script in its source location.
pub fn candidate_list(resource_dir: &str, binary_name: &str, dev_root: Option<&str>) -> (r: Vec<
    Candidate,
>)
    ensures
        r@.len() == if dev_root is Some { 3int } else { 2int },
        r@[0].path@ == resolved(resource_dir@, binary_name@),
        r@[0].kind == EntryKind::Executable,
        r@[1].path@ == resolved(resource_dir@, "src-python/main.py"@),
        r@[1].kind == EntryKind::Script,
        dev_root is Some ==> r@[2].path@ == resolved(dev_root->0@, "src-tauri/src-python/main.py"@),
        dev_root is Some ==> r@[2].kind == EntryKind::Script,
{
    let mut r: Vec<Candidate> = Vec::new();
    r.push(Candidate { path: resolve_path(resource_dir, binary_name), kind: EntryKind::Executable });
    r.push(
        Candidate { path: resolve_path(resource_dir, "src-python/main.py"), kind: EntryKind::Script },
    );
    match dev_root {
        Some(d) => {
            r.push(
                Candidate {
                    path: resolve_path(d, "src-tauri/src-python/main.py"),
                    kind: EntryKind::Script,
                },
            );
        },
        None => {},
    }
    r
}

/// The first candidate that exists, where `exists[i]` tells whether
/// `candidates[i]` is on disk; or, where none is, every path probed.
pub fn locate(candidates: &Vec<Candidate>, exists: &Vec<bool>) -> (r: Result<Candidate, LocatorNotFound>)
    requires
        exists@.len() == candidates@.len(),
    ensures
        r is Ok <==> exists|i: int| 0 <= i < exists@.len() && exists@[i],
        r is Ok ==> exists|i: int|
            #![trigger candidates@[i]]
            is_first_existing(exists@, i) && r->Ok_0.path@ == candidates@[i].path@ && r->Ok_0.kind
                == candidates@[i].kind,
        r is Err ==> strings(r->Err_0.probed) == candidate_paths(candidates@),
{
    let n = candidates.len();
    let mut i: usize = 0;
    while i < n
        invariant
            n == candidates@.len(),
            n == exists@.len(),
            0 <= i <= n,
            forall|j: int| 0 <= j < i ==> !exists@[j],
        decreases n - i,
    {
        if exists[i] {
            let c = &candidates[i];
            assert(is_first_existing(exists@, i as int));
            return Ok(Candidate { path: c.path.clone(), kind: c.kind });
        }
        i = i + 1;
    }
    let mut probed: Vec<String> = Vec::new();
    let mut k: usize = 0;
    while k < n
        invariant
            n == candidates@.len(),
            0 <= k <= n,
            probed@.len() == k,
            strings(probed) =~= candidate_paths(candidates@).subrange(0, k as int),
        decreases n - k,
    {
        let ghost before = probed@;
        probed.push(candidates[k].path.clone());
        assert(strings(probed) =~= before.map_values(|x: String| x@).push(candidates@[k as int].path@));
        k = k + 1;
    }
    assert(strings(probed) =~= candidate_paths(candidates@));
    Err(LocatorNotFound { probed })
}

/// The program and arguments that start an entry point.
#[derive(Debug)]
pub struct Invocation {
    pub program: String,
    pub args: Vec<String>,
}

/// The command line that starts `entry` listening on `endpoint`: the
/// executable itself, or `interpreter` with the script; either way followed
/// by `--host=<host> --port=<port>`.
pub fn invocation(entry: &Candidate, endpoint: &Endpoint, interpreter: &str) -> (r: Invocation)
    ensures
        entry.kind == EntryKind::Executable ==> {
            &&& r.program@ == entry.path@
            &&& strings(r.args) == seq![endpoint.spec_host_flag(), endpoint.spec_port_flag()]
        },
        entry.kind == EntryKind::Script ==> {
            &&& r.program@ == interpreter@
            &&& strings(r.args) == seq![entry.path@, endpoint.spec_host_flag(), endpoint.spec_port_flag()]
        },
{
    let (host_flag, port_flag) = endpoint.startup_flags();
    let mut args: Vec<String> = Vec::new();
    let program = match entry.kind {
        EntryKind::Executable => entry.path.clone(),
        EntryKind::Script => {
            args.push(entry.path.clone());
            String::from_str(interpreter)
        },
    };
    args.push(host_flag);
    args.push(port_flag);
    proof {
        if entry.kind == EntryKind::Executable {
            assert(strings(args) =~= seq![endpoint.spec_host_flag(), endpoint.spec_port_flag()]);
        } else {
            assert(strings(args) =~= seq![entry.path@, endpoint.spec_host_flag(), endpoint.spec_port_flag()]);
        }
    }
    Invocation { program, args }
}

} // verus!
