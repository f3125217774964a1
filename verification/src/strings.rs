//! Character-level string utilities: equality and whitespace trimming,
//! verified down to the sequence of characters.

use vstd::prelude::*;
use vstd::string::StrSliceExecFns;
use vstd::string::StringExecFns;

verus! {

/// The whitespace characters recognised when a version override is trimmed:
/// the ASCII whitespace set.
pub open spec fn is_space_char(c: char) -> bool {
    c == ' ' || c == '\t' || c == '\n' || c == '\r' || c == '\u{b}' || c == '\u{c}'
}

/// Executable test for [`is_space_char`].
pub fn is_space(c: char) -> (r: bool)
    ensures
        r == is_space_char(c),
{
    c == ' ' || c == '\t' || c == '\n' || c == '\r' || c == '\u{b}' || c == '\u{c}'
}

/// Character-for-character string equality.
pub fn str_eq(a: &str, b: &str) -> (r: bool)
    ensures
        r == (a@ == b@),
{
    let an = a.unicode_len();
    let bn = b.unicode_len();
    if an != bn {
        return false;
    }
    let mut i: usize = 0;
    while i < an
        invariant
            i <= an,
            an == a@.len(),
            an == b@.len(),
            forall|j: int| 0 <= j < i ==> a@[j] == b@[j],
        decreases an - i,
    {
        if a.get_char(i) != b.get_char(i) {
            return false;
        }
        i = i + 1;
    }
    proof {
        assert(a@ =~= b@);
    }
    true
}

/// The string with leading whitespace removed.
pub open spec fn trim_front(s: Seq<char>) -> Seq<char>
    decreases s.len(),
{
    if s.len() > 0 && is_space_char(s[0]) {
        trim_front(s.drop_first())
    } else {
        s
    }
}

/// The string with trailing whitespace removed.
pub open spec fn trim_back(s: Seq<char>) -> Seq<char>
    decreases s.len(),
{
    if s.len() > 0 && is_space_char(s.last()) {
        trim_back(s.drop_last())
    } else {
        s
    }
}

/// The string with both leading and trailing whitespace removed.
pub open spec fn trim_spec(s: Seq<char>) -> Seq<char> {
    trim_back(trim_front(s))
}

proof fn lemma_trim_front_prefix(s: Seq<char>, k: int)
    requires
        0 <= k <= s.len(),
        forall|j: int| 0 <= j < k ==> is_space_char(s[j]),
        k < s.len() ==> !is_space_char(s[k]),
    ensures
        trim_front(s) == s.subrange(k, s.len() as int),
    decreases k,
{
    if k == 0 {
        assert(s.subrange(0, s.len() as int) =~= s);
    } else {
        lemma_trim_front_prefix(s.drop_first(), k - 1);
        assert(s.drop_first().subrange(k - 1, s.drop_first().len() as int) =~= s.subrange(
            k,
            s.len() as int,
        ));
    }
}

proof fn lemma_trim_back_suffix(s: Seq<char>, k: int)
    requires
        0 <= k <= s.len(),
        forall|j: int| k <= j < s.len() ==> is_space_char(s[j]),
        k > 0 ==> !is_space_char(s[k - 1]),
    ensures
        trim_back(s) == s.subrange(0, k),
    decreases s.len() - k,
{
    if k == s.len() {
        assert(s.subrange(0, k) =~= s);
    } else {
        lemma_trim_back_suffix(s.drop_last(), k);
        assert(s.drop_last().subrange(0, k) =~= s.subrange(0, k));
    }
}

fn first_non_space(s: &str, i: usize) -> (r: usize)
    requires
        i <= s@.len(),
        forall|j: int| 0 <= j < i ==> is_space_char(s@[j]),
    ensures
        i <= r <= s@.len(),
        forall|j: int| 0 <= j < r ==> is_space_char(s@[j]),
        r < s@.len() ==> !is_space_char(s@[r as int]),
    decreases s@.len() - i,
{
    let n = s.unicode_len();
    if i < n {
        if is_space(s.get_char(i)) {
            first_non_space(s, i + 1)
        } else {
            i
        }
    } else {
        i
    }
}

fn last_non_space(s: &str, i: usize) -> (r: usize)
    requires
        i <= s@.len(),
        forall|j: int| i <= j < s@.len() ==> is_space_char(s@[j]),
    ensures
        r <= i,
        forall|j: int| r <= j < s@.len() ==> is_space_char(s@[j]),
        r > 0 ==> !is_space_char(s@[r - 1]),
    decreases i,
{
    if i > 0 {
        if is_space(s.get_char(i - 1)) {
            last_non_space(s, i - 1)
        } else {
            i
        }
    } else {
        0
    }
}

/// The input with leading and trailing whitespace removed.
pub fn trim(s: &str) -> (r: String)
    ensures
        r@ == trim_spec(s@),
{
    let n = s.unicode_len();
    let start = first_non_space(s, 0);
    let end = last_non_space(s, n);
    if start < end {
        proof {
            lemma_trim_front_prefix(s@, start as int);
            let sub = s@.subrange(start as int, s@.len() as int);
            lemma_trim_back_suffix(sub, end - start);
            assert(sub.subrange(0, end - start) =~= s@.subrange(start as int, end as int));
        }
        String::from_str(s.substring_char(start, end))
    } else {
        proof {
            lemma_trim_front_prefix(s@, start as int);
            let sub = s@.subrange(start as int, s@.len() as int);
            lemma_trim_back_suffix(sub, 0);
            assert(sub.subrange(0, 0) =~= Seq::<char>::empty());
            assert(trim_spec(s@) =~= Seq::<char>::empty());
        }
        String::new()
    }
}

} // verus!
