//! Character-wise string comparison, used to dispatch the named
//! configuration, input, output and probe keys.

use vstd::prelude::*;

verus! {

/// Two string slices are equal exactly when their character views are.
pub fn str_eq(a: &str, b: &str) -> (r: bool)
    ensures
        r <==> a@ == b@,
{
    let a_len = a.unicode_len();
    let b_len = b.unicode_len();
    if a_len != b_len {
        return false;
    }
    let mut idx: usize = 0;
    while idx < a_len
        invariant
            a_len == a@.len(),
            b_len == b@.len(),
            a_len == b_len,
            idx <= a_len,
            forall|j: int| 0 <= j < idx ==> a@[j] == b@[j],
        decreases a_len - idx,
    {
        if a.get_char(idx) != b.get_char(idx) {
            return false;
        }
        idx = idx + 1;
    }
    proof {
        assert(a@ =~= b@);
    }
    true
}

} // verus!
