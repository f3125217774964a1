//! Path-traversal guard for archive entries.
//!
//! An entry name is written below the destination root only when it is
//! relative and free of parent-directory components; everything else is
//! skipped during extraction planning. Backslashes and colons are rejected
//! outright so the rule is safe on every host filesystem.

use vstd::prelude::*;
use vstd::string::StrSliceExecFns;

verus! {

/// A `..` path component starts at index `i` of `s`.
pub open spec fn dotdot_at(s: Seq<char>, i: int) -> bool {
    &&& 0 <= i
    &&& i + 2 <= s.len()
    &&& s[i] == '.'
    &&& s[i + 1] == '.'
    &&& (i == 0 || s[i - 1] == '/')
    &&& (i + 2 == s.len() || s[i + 2] == '/')
}

/// Some component of `s` is exactly `..`.
pub open spec fn has_dotdot_component(s: Seq<char>) -> bool {
    exists|i: int| dotdot_at(s, i)
}

/// An archive entry name that resolves below the destination root: nonempty,
/// relative, free of backslashes and colons, and without `..` components.
pub open spec fn entry_path_is_safe(s: Seq<char>) -> bool {
    &&& s.len() > 0
    &&& s[0] != '/'
    &&& forall|i: int| 0 <= i < s.len() ==> s[i] != '\\' && s[i] != ':'
    &&& !has_dotdot_component(s)
}

/// An archive entry name that denotes a directory: it ends in `/`.
pub open spec fn is_dir_entry(s: Seq<char>) -> bool {
    s.len() > 0 && s[s.len() - 1] == '/'
}

/// Executable form of [`entry_path_is_safe`].
pub fn entry_path_safe(name: &str) -> (r: bool)
    ensures
        r == entry_path_is_safe(name@),
{
    let n = name.unicode_len();
    if n == 0 {
        return false;
    }
    if name.get_char(0) == '/' {
        return false;
    }
    let mut i: usize = 0;
    while i < n
        invariant
            i <= n,
            n == name@.len(),
            n > 0,
            name@[0] != '/',
            forall|j: int| 0 <= j < i ==> name@[j] != '\\' && name@[j] != ':',
            forall|j: int| 0 <= j < i ==> !dotdot_at(name@, j),
        decreases n - i,
    {
        let c = name.get_char(i);
        if c == '\\' || c == ':' {
            return false;
        }
        if c == '.' && n - i >= 2 {
            if name.get_char(i + 1) == '.' {
                let prev_ok = i == 0 || name.get_char(i - 1) == '/';
                let next_ok = i + 2 == n || name.get_char(i + 2) == '/';
                if prev_ok && next_ok {
                    proof {
                        assert(dotdot_at(name@, i as int));
                    }
                    return false;
                }
            }
        }
        i = i + 1;
    }
    proof {
        assert forall|j: int| !dotdot_at(name@, j) by {
            if 0 <= j && j + 2 <= name@.len() {
                assert(!dotdot_at(name@, j));
            }
        }
    }
    true
}

/// Executable form of [`is_dir_entry`].
pub fn is_dir_name(name: &str) -> (r: bool)
    ensures
        r == is_dir_entry(name@),
{
    let n = name.unicode_len();
    n > 0 && name.get_char(n - 1) == '/'
}

} // verus!
