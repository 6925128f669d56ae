//! Which of several sockets belongs to the live compositor.

use vstd::prelude::*;

verus! {

/// The position of the first of the latest times; the most recently created
/// socket belongs to the live instance.
pub fn newest(times: &[i128]) -> (r: Option<usize>)
    ensures
        match r {
            Some(best) => {
                &&& best < times@.len()
                &&& forall|i: int| 0 <= i < times@.len() ==> times@[i] <= times@[best as int]
                &&& forall|i: int| 0 <= i < best ==> times@[i] < times@[best as int]
            },
            None => times@.len() == 0,
        },
{
    if times.len() == 0 {
        return None;
    }
    let mut best: usize = 0;
    let mut i: usize = 1;
    while i < times.len()
        invariant
            best < i <= times@.len(),
            forall|j: int| 0 <= j < i ==> times@[j] <= times@[best as int],
            forall|j: int| 0 <= j < best ==> times@[j] < times@[best as int],
        decreases times@.len() - i,
    {
        if times[i] > times[best] {
            best = i;
        }
        i += 1;
    }
    Some(best)
}

} // verus!
