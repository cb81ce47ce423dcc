//! The test filter: a pure predicate over qualified test names. A filter is
//! either absent (every test is selected) or a substring pattern (a test is
//! selected exactly when its qualified `<module>::<function>` name contains
//! the pattern).

use vstd::prelude::*;
use vstd::string::StrSliceExecFns;
use vstd::string::StringExecFns;
use crate::plan::TestCase;

verus! {

/// The needle `n` occurs in the haystack `h` starting at position `i`.
pub open spec fn match_at(h: Seq<char>, n: Seq<char>, i: int) -> bool {
    0 <= i && i + n.len() <= h.len() && h.subrange(i, i + n.len() as int) == n
}

/// The needle `n` occurs somewhere in the haystack `h`.
pub open spec fn contains_seq(h: Seq<char>, n: Seq<char>) -> bool {
    exists|i: int| match_at(h, n, i)
}

/// The qualified name of a test: `<module>::<function>`.
pub open spec fn qualified_name_spec(module: Seq<char>, function: Seq<char>) -> Seq<char> {
    module + seq![':', ':'] + function
}

/// A test is selected when no pattern is set, or when its qualified name
/// contains the pattern as a substring.
pub open spec fn selected(t: TestCase, pattern: Option<Seq<char>>) -> bool {
    match pattern {
        None => true,
        Some(p) => contains_seq(qualified_name_spec(t.module_name@, t.function_name@), p),
    }
}

/// The view of an optional pattern string.
pub open spec fn pattern_view(pattern: Option<String>) -> Option<Seq<char>> {
    match pattern {
        None => None,
        Some(p) => Some(p@),
    }
}

/// Whether the needle occurs at position `i` of the haystack.
fn matches_at(h: &str, n: &str, i: usize, hl: usize, nl: usize) -> (b: bool)
    requires
        hl == h@.len(),
        nl == n@.len(),
        i + nl <= hl,
    ensures
        b == match_at(h@, n@, i as int),
{
    let mut j: usize = 0;
    while j < nl
        invariant
            j <= nl,
            hl == h@.len(),
            nl == n@.len(),
            i + nl <= hl,
            forall|t: int| 0 <= t < j ==> h@[i + t] == n@[t],
        decreases nl - j,
    {
        if h.get_char(i + j) != n.get_char(j) {
            proof {
                assert(h@.subrange(i as int, i as int + nl as int) != n@) by {
                    assert(h@.subrange(i as int, i as int + nl as int)[j as int] == h@[
                        i + j
                    ]);
                }
            }
            return false;
        }
        j += 1;
    }
    proof {
        assert(h@.subrange(i as int, i as int + nl as int) =~= n@);
    }
    true
}

/// Whether the haystack contains the needle as a (possibly empty) substring.
pub fn str_contains(h: &str, n: &str) -> (b: bool)
    ensures
        b == contains_seq(h@, n@),
{
    let hl = h.unicode_len();
    let nl = n.unicode_len();
    if nl > hl {
        return false;
    }
    let mut i: usize = 0;
    loop
        invariant
            nl <= hl,
            hl == h@.len(),
            nl == n@.len(),
            i <= hl - nl,
            forall|k: int| 0 <= k < i ==> !match_at(h@, n@, k),
        decreases hl - nl - i,
    {
        if matches_at(h, n, i, hl, nl) {
            return true;
        }
        if i == hl - nl {
            proof {
                assert forall|k: int| !match_at(h@, n@, k) by {
                    if 0 <= k && k + n@.len() <= h@.len() {
                        if k < i {
                        } else {
                            assert(k == i);
                        }
                    }
                }
            }
            return false;
        }
        i += 1;
    }
}

/// The qualified name of a test case: module, `::`, function.
pub fn qualified_name(module: &str, function: &str) -> (s: String)
    ensures
        s@ == qualified_name_spec(module@, function@),
{
    let mut s = module.to_owned();
    s.append("::");
    s.append(function);
    proof {
        reveal_strlit("::");
        assert(s@ =~= qualified_name_spec(module@, function@));
    }
    s
}

/// Whether a test case is selected by an optional substring pattern over
/// its qualified name.
pub fn test_selected(t: &TestCase, pattern: &Option<String>) -> (b: bool)
    ensures
        b == selected(*t, pattern_view(*pattern)),
{
    match pattern {
        None => true,
        Some(p) => {
            let name = qualified_name(t.module_name.as_str(), t.function_name.as_str());
            str_contains(name.as_str(), p.as_str())
        },
    }
}

} // verus!
