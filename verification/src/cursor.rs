//! Cursor arithmetic for the playlist and the explorer, and its cyclic laws.

use vstd::prelude::*;

verus! {

/// One step back through indices `0 .. n`, wrapping at the front.
pub open spec fn wrap_dec(i: int, n: int) -> int {
    if i == 0 {
        n - 1
    } else {
        i - 1
    }
}

/// One step forward through indices `0 .. n`, wrapping at the back.
pub open spec fn wrap_inc(i: int, n: int) -> int {
    if i == n - 1 {
        0
    } else {
        i + 1
    }
}

/// One step up through the explorer domain `0 ..= n`, where `0` is the
/// reserved go-up entry: from `0` the cursor wraps to `n`.
pub open spec fn cursor_up(i: int, n: int) -> int {
    if i == 0 {
        n
    } else {
        i - 1
    }
}

/// One step down through the explorer domain `0 ..= n`: from `n` the
/// cursor wraps to `0`.
pub open spec fn cursor_down(i: int, n: int) -> int {
    if i == n {
        0
    } else {
        i + 1
    }
}

/// `k` backward steps from `i` through `0 .. n`.
pub open spec fn iter_wrap_dec(k: nat, i: int, n: int) -> int
    decreases k,
{
    if k == 0 {
        i
    } else {
        wrap_dec(iter_wrap_dec((k - 1) as nat, i, n), n)
    }
}

/// `k` forward steps from `i` through `0 .. n`.
pub open spec fn iter_wrap_inc(k: nat, i: int, n: int) -> int
    decreases k,
{
    if k == 0 {
        i
    } else {
        wrap_inc(iter_wrap_inc((k - 1) as nat, i, n), n)
    }
}

proof fn lemma_iter_wrap_dec_value(k: nat, i: int, n: int)
    requires
        0 < n,
        0 <= i < n,
        k <= n,
    ensures
        iter_wrap_dec(k, i, n) == if k <= i {
            i - k
        } else {
            i + n - k
        },
    decreases k,
{
    if k > 0 {
        lemma_iter_wrap_dec_value((k - 1) as nat, i, n);
    }
}

proof fn lemma_iter_wrap_inc_value(k: nat, i: int, n: int)
    requires
        0 < n,
        0 <= i < n,
        k <= n,
    ensures
        iter_wrap_inc(k, i, n) == if i + k < n {
            i + k
        } else {
            i + k - n
        },
    decreases k,
{
    if k > 0 {
        lemma_iter_wrap_inc_value((k - 1) as nat, i, n);
    }
}

/// On a playlist of length `n`, `n` consecutive backward cursor steps
/// return the cursor to where it began: the orbit is cyclic of order `n`.
pub proof fn lemma_cursor_cycle_up(i: int, n: int)
    requires
        0 < n,
        0 <= i < n,
    ensures
        iter_wrap_dec(n as nat, i, n) == i,
{
    lemma_iter_wrap_dec_value(n as nat, i, n);
}

/// On a playlist of length `n`, `n` consecutive forward cursor steps
/// return the cursor to where it began.
pub proof fn lemma_cursor_cycle_down(i: int, n: int)
    requires
        0 < n,
        0 <= i < n,
    ensures
        iter_wrap_inc(n as nat, i, n) == i,
{
    lemma_iter_wrap_inc_value(n as nat, i, n);
}

} // verus!
