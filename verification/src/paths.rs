//! The path sanitizer: the sole defense against path traversal.
//!
//! A URL-decoded relative path is checked component by component; plain
//! names and `.` pass, while parent references (`..`) and root markers
//! reject the whole path.

use vstd::prelude::*;
use vstd::string::*;

verus! {

/// A parent-directory component fills the characters at `i` and `i + 1`
/// of `s`: two dots making up a whole `/`-separated segment.
pub open spec fn dotdot_at(s: Seq<char>, i: int) -> bool {
    &&& 0 <= i
    &&& i + 2 <= s.len()
    &&& s[i] == '.'
    &&& s[i + 1] == '.'
    &&& (i == 0 || s[i - 1] == '/')
    &&& (i + 2 == s.len() || s[i + 2] == '/')
}

/// A relative path is safe when it does not start at the filesystem
/// root and holds no parent-directory component anywhere. Components
/// that are `.` or empty (from repeated separators) carry no meaning
/// and are allowed.
pub open spec fn safe_rel_path(s: Seq<char>) -> bool {
    &&& s.len() > 0 ==> s[0] != '/'
    &&& !(exists|i: int| dotdot_at(s, i))
}

/// Validates a URL-decoded relative path, returning it unchanged when
/// every component is a plain name or `.`, and nothing when any
/// component is a parent reference or a root marker, wherever it
/// stands in the path.
pub fn sanitized_relative_path(path: &str) -> (r: Option<String>)
    ensures
        r is Some <==> safe_rel_path(path@),
        r matches Some(p) ==> p@ == path@,
{
    let n = path.unicode_len();
    if n > 0 && path.get_char(0) == '/' {
        return None;
    }
    let mut i: usize = 0;
    while i < n
        invariant
            i <= n,
            n == path@.len(),
            path@.len() > 0 ==> path@[0] != '/',
            forall|j: int| 0 <= j < i ==> !dotdot_at(path@, j),
        decreases n - i,
    {
        if n - i >= 2 && path.get_char(i) == '.' && path.get_char(i + 1) == '.' && (i == 0
            || path.get_char(i - 1) == '/') && (n - i == 2 || path.get_char(i + 2) == '/') {
            proof {
                assert(dotdot_at(path@, i as int));
            }
            return None;
        }
        proof {
            assert(!dotdot_at(path@, i as int));
        }
        i += 1;
    }
    proof {
        assert forall|j: int| !dotdot_at(path@, j) by {
            if 0 <= j && j + 2 <= path@.len() {
                assert(!dotdot_at(path@, j));
            }
        }
    }
    Some(String::from_str(path))
}

/// A relative path with a parent-directory component anywhere in it is
/// never a safe path, whatever else the path holds.
pub proof fn lemma_parent_component_unsafe(s: Seq<char>, i: int)
    requires
        dotdot_at(s, i),
    ensures
        !safe_rel_path(s),
{
}

} // verus!
