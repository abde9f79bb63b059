//! The window that offset and limit cut out of a sequence.

use vstd::math::{max, min};
use vstd::prelude::*;

verus! {

/// Where the window starts in a sequence of `size` items: at `offset`, or at
/// the end when the offset lies beyond it.
pub open spec fn window_start(size: nat, offset: nat) -> nat {
    min(offset as int, size as int) as nat
}

/// How many items the window holds: `min(limit, max(0, size - offset))`.
pub open spec fn window_len(size: nat, offset: nat, limit: nat) -> nat {
    min(limit as int, max(0, size - offset)) as nat
}

/// The items of `all` that remain after skipping the first `offset` and then
/// keeping at most `limit`.
pub open spec fn window<T>(all: Seq<T>, offset: nat, limit: nat) -> Seq<T> {
    let start = window_start(all.len(), offset);
    all.subrange(start as int, (start + window_len(all.len(), offset, limit)) as int)
}

/// How the window over the first `n + 1` items of `all` relates to the
/// window over the first `n`: an item within the offset adds nothing, the
/// next ones are appended one by one, and once the limit is reached the
/// window is that of the whole sequence.
pub proof fn lemma_window_step<T>(all: Seq<T>, n: int, offset: nat, limit: nat)
    requires
        0 <= n < all.len(),
    ensures
        n < offset ==> window(all.take(n + 1), offset, limit) == window(
            all.take(n),
            offset,
            limit,
        ),
        n >= offset && window(all.take(n), offset, limit).len() < limit ==> window(
            all.take(n + 1),
            offset,
            limit,
        ) == window(all.take(n), offset, limit).push(all[n]),
        n >= offset && window(all.take(n), offset, limit).len() >= limit ==> window(
            all.take(n),
            offset,
            limit,
        ) == window(all, offset, limit),
{
    let before = window(all.take(n), offset, limit);
    let after = window(all.take(n + 1), offset, limit);
    if n < offset {
        assert(after =~= before);
    } else if before.len() < limit {
        assert(after =~= before.push(all[n]));
    } else {
        assert(before =~= window(all, offset, limit));
    }
}

} // verus!
