//! Resolution of relative paths against the host's working directory.
//!
//! The backend may run in another directory than the host, so every path
//! that leaves the host is made absolute first. Resolution is textual: `.`
//! prefixes are dropped, `..` is kept, and nothing is looked up on disk.
use vstd::prelude::*;

verus! {

pub open spec fn is_separator(c: char) -> bool {
    c == '/' || c == '\\'
}

/// A path that names its location without a working directory: rooted
/// (`/srv`, `\share`) or with a drive (`C:\repo`, `C:/repo`).
pub open spec fn is_absolute(p: Seq<char>) -> bool {
    ||| p.len() > 0 && is_separator(p[0])
    ||| p.len() > 2 && p[1] == ':' && is_separator(p[2])
}

/// The index just past the leading `./` segments of `p` from `i` on.
pub open spec fn dot_prefix_end(p: Seq<char>, i: int) -> int
    decreases p.len() - i,
{
    if 0 <= i && i + 1 < p.len() && p[i] == '.' && is_separator(p[i + 1]) {
        dot_prefix_end(p, i + 2)
    } else {
        i
    }
}

/// `p` without its leading `./` segments; a path that then reads `.`
/// names the directory itself and leaves nothing.
pub open spec fn strip_current(p: Seq<char>) -> Seq<char> {
    let rest = p.subrange(dot_prefix_end(p, 0), p.len() as int);
    if rest == seq!['.'] {
        Seq::empty()
    } else {
        rest
    }
}

/// `p` resolved against the working directory `cwd`.
pub open spec fn resolved(cwd: Seq<char>, p: Seq<char>) -> Seq<char> {
    if is_absolute(p) {
        p
    } else {
        let rest = strip_current(p);
        if rest.len() == 0 {
            cwd
        } else if cwd.len() > 0 && is_separator(cwd.last()) {
            cwd + rest
        } else {
            cwd + seq!['/'] + rest
        }
    }
}

proof fn lemma_dot_prefix_end_bounds(p: Seq<char>, i: int)
    requires
        0 <= i <= p.len(),
    ensures
        i <= dot_prefix_end(p, i) <= p.len(),
    decreases p.len() - i,
{
    if i + 1 < p.len() && p[i] == '.' && is_separator(p[i + 1]) {
        lemma_dot_prefix_end_bounds(p, i + 2);
    }
}

fn absolute_text(p: &str) -> (r: bool)
    ensures
        r == is_absolute(p@),
{
    let n = p.unicode_len();
    if n > 0 {
        let c = p.get_char(0);
        if c == '/' || c == '\\' {
            return true;
        }
    }
    if n > 2 {
        let c = p.get_char(2);
        return p.get_char(1) == ':' && (c == '/' || c == '\\');
    }
    false
}

/// Resolves `p` against the working directory `cwd`.
pub fn resolve_path(cwd: &str, p: &str) -> (r: String)
    ensures
        r@ == resolved(cwd@, p@),
{
    if absolute_text(p) {
        return String::from_str(p);
    }
    let n = p.unicode_len();
    let mut i: usize = 0;
    proof {
        lemma_dot_prefix_end_bounds(p@, 0);
    }
    while i < n && i + 1 < n && p.get_char(i) == '.' && (p.get_char(i + 1) == '/' || p.get_char(i + 1) == '\\')
        invariant
            n == p@.len(),
            0 <= i <= n,
            dot_prefix_end(p@, i as int) == dot_prefix_end(p@, 0),
        decreases n - i,
    {
        i = i + 2;
    }
    let rest = p.substring_char(i, n);
    let is_dot = rest.unicode_len() == 1 && rest.get_char(0) == '.';
    if is_dot || rest.unicode_len() == 0 {
        proof {
            if is_dot {
                assert(rest@ =~= seq!['.']);
            }
        }
        return String::from_str(cwd);
    }
    assert(rest@ != seq!['.']) by {
        if rest@ =~= seq!['.'] {
            assert(rest@.len() == 1 && rest@[0] == '.');
        }
    }
    let mut out = String::from_str(cwd);
    let m = cwd.unicode_len();
    let ends_in_separator = m > 0 && (cwd.get_char(m - 1) == '/' || cwd.get_char(m - 1) == '\\');
    if !ends_in_separator {
        proof {
            reveal_strlit("/");
        }
        out.append("/");
    }
    out.append(rest);
    assert(out@ =~= resolved(cwd@, p@));
    out
}

} // verus!
