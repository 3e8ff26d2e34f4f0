//! Block framing: how many frames a stereo block can process.

use vstd::prelude::*;

verus! {

/// The shortest of the lengths that are present, when it is not zero.
///
/// Returns `None` when no length is present or when a present buffer is
/// empty: such a block is a no-op.
pub fn min_len(lengths: &[Option<usize>]) -> (r: Option<usize>)
    ensures
        match r {
            Some(m) => m > 0 && (exists|i: int|
                0 <= i < lengths@.len() && lengths@[i] == Some(m)) && (forall|j: int|
                0 <= j < lengths@.len() && #[trigger] lengths@[j] is Some ==> m <= lengths@[j]->0),
            None => (forall|j: int| 0 <= j < lengths@.len() ==> #[trigger] lengths@[j] is None)
                || (exists|i: int| 0 <= i < lengths@.len() && lengths@[i] == Some(0usize)),
        },
{
    let mut best: Option<usize> = None;
    let mut at: usize = 0;
    let mut k: usize = 0;
    while k < lengths.len()
        invariant
            k <= lengths@.len(),
            at < k || best is None,
            match best {
                Some(m) => lengths@[at as int] == Some(m) && forall|j: int|
                    0 <= j < k && #[trigger] lengths@[j] is Some ==> m <= lengths@[j]->0,
                None => forall|j: int| 0 <= j < k ==> #[trigger] lengths@[j] is None,
            },
        decreases lengths@.len() - k,
    {
        match lengths[k] {
            Some(len) => {
                match best {
                    Some(m) => {
                        if len < m {
                            best = Some(len);
                            at = k;
                        }
                    },
                    None => {
                        best = Some(len);
                        at = k;
                    },
                }
            },
            None => {},
        }
        k += 1;
    }
    match best {
        Some(m) => {
            if m > 0 {
                Some(m)
            } else {
                None
            }
        },
        None => None,
    }
}

} // verus!
