use vstd::prelude::*;
use vstd::string::StrSliceExecFns;

verus! {

/// Whether `line` begins with `prefix`, compared character by character.
pub fn has_prefix(line: &str, prefix: &str) -> (r: bool)
    ensures
        r == prefix@.is_prefix_of(line@),
{
    let n = prefix.unicode_len();
    let m = line.unicode_len();
    if n > m {
        return false;
    }
    let mut i: usize = 0;
    while i < n
        invariant
            n == prefix@.len(),
            m == line@.len(),
            n <= m,
            i <= n,
            forall|j: int| 0 <= j < i ==> prefix@[j] == line@[j],
        decreases n - i,
    {
        if prefix.get_char(i) != line.get_char(i) {
            assert(prefix@ != line@.subrange(0, n as int)) by {
                assert(prefix@[i as int] != line@.subrange(0, n as int)[i as int]);
            }
            return false;
        }
        i = i + 1;
    }
    assert(prefix@ =~= line@.subrange(0, n as int));
    true
}

/// Whether `line` is exactly `expected`.
pub fn is_exactly(line: &str, expected: &str) -> (r: bool)
    ensures
        r == (line@ == expected@),
{
    if line.unicode_len() != expected.unicode_len() {
        return false;
    }
    let r = has_prefix(line, expected);
    proof {
        if r {
            assert(line@ =~= line@.subrange(0, expected@.len() as int));
        }
    }
    r
}

} // verus!
