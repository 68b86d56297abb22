//! Reading strings character by character.

use vstd::prelude::*;
use vstd::std_specs::iter::IteratorSpec;

verus! {

/// Whether `a` and `b` hold the same characters in the same order.
pub fn str_eq(a: &str, b: &str) -> (same: bool)
    ensures
        same == (a@ == b@),
{
    let mut left = a.chars();
    let mut right = b.chars();
    let ghost mut seen: int = 0;
    loop
        invariant
            0 <= seen <= a@.len(),
            seen <= b@.len(),
            left.remaining() == a@.skip(seen),
            right.remaining() == b@.skip(seen),
            a@.take(seen) == b@.take(seen),
        decreases a@.len() - seen,
    {
        match (left.next(), right.next()) {
            (None, None) => {
                assert(a@ =~= a@.take(seen));
                assert(b@ =~= b@.take(seen));
                return true;
            },
            (Some(c), Some(d)) => {
                if c != d {
                    assert(a@[seen] != b@[seen]);
                    return false;
                }
                proof {
                    assert(a@.take(seen + 1) =~= a@.take(seen).push(c));
                    assert(b@.take(seen + 1) =~= b@.take(seen).push(d));
                    seen = seen + 1;
                }
            },
            _ => {
                assert(a@.len() != b@.len());
                return false;
            },
        }
    }
}

/// The last character of `s`, if it has any.
pub fn last_char(s: &str) -> (last: Option<char>)
    ensures
        last == if s@.len() == 0 {
            None::<char>
        } else {
            Some(s@.last())
        },
{
    let mut last: Option<char> = None;
    for c in walk: s.chars()
        invariant
            walk.seq() == s@,
            last == if walk.index() == 0 {
                None::<char>
            } else {
                Some(s@[walk.index() - 1])
            },
    {
        last = Some(c);
    }
    last
}

} // verus!
