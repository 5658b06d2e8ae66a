//! Wrap-around selection over a list: one index, or none, into a
//! collection of known length.
use vstd::prelude::*;

verus! {

/// A selection is valid for a list of `len` items when it is none or an
/// index below `len`.
pub open spec fn valid_selection(len: nat, sel: Option<usize>) -> bool {
    sel matches Some(i) ==> i < len
}

pub open spec fn index_or_zero(sel: Option<usize>) -> int {
    match sel {
        Some(i) => i as int,
        None => 0,
    }
}

/// The selection after one step forward; an empty list keeps it as it is.
pub open spec fn next_spec(len: nat, sel: Option<usize>) -> Option<usize> {
    if len == 0 {
        sel
    } else {
        Some(((index_or_zero(sel) + 1) % (len as int)) as usize)
    }
}

/// The selection after one step back; an empty list keeps it as it is.
pub open spec fn previous_spec(len: nat, sel: Option<usize>) -> Option<usize> {
    if len == 0 {
        sel
    } else {
        Some(((index_or_zero(sel) + len - 1) % (len as int)) as usize)
    }
}

/// The selection after the item at `k` was removed and `new_len` items are
/// left: none if the list is empty, the new last item if `k` was the last,
/// else `k` again, which now holds the item that followed.
pub open spec fn after_removal_spec(new_len: nat, k: nat) -> Option<usize> {
    if new_len == 0 {
        None
    } else if k >= new_len {
        Some((new_len - 1) as usize)
    } else {
        Some(k as usize)
    }
}

/// `n` steps forward.
pub open spec fn next_times(len: nat, sel: Option<usize>, n: nat) -> Option<usize>
    decreases n,
{
    if n == 0 {
        sel
    } else {
        next_spec(len, next_times(len, sel, (n - 1) as nat))
    }
}

/// `n` steps back.
pub open spec fn previous_times(len: nat, sel: Option<usize>, n: nat) -> Option<usize>
    decreases n,
{
    if n == 0 {
        sel
    } else {
        previous_spec(len, previous_times(len, sel, (n - 1) as nat))
    }
}

/// Selects the next item, wrapping from the last to the first.
pub fn next(len: usize, sel: Option<usize>) -> (r: Option<usize>)
    requires
        valid_selection(len as nat, sel),
    ensures
        r == next_spec(len as nat, sel),
        valid_selection(len as nat, r),
{
    if len == 0 {
        sel
    } else {
        let i = match sel {
            Some(i) => i,
            None => 0,
        };
        if i + 1 == len {
            proof {
                vstd::arithmetic::div_mod::lemma_mod_self_0(len as int);
            }
            Some(0)
        } else {
            proof {
                vstd::arithmetic::div_mod::lemma_small_mod((i + 1) as nat, len as nat);
            }
            Some(i + 1)
        }
    }
}

/// Selects the previous item, wrapping from the first to the last.
pub fn previous(len: usize, sel: Option<usize>) -> (r: Option<usize>)
    requires
        valid_selection(len as nat, sel),
    ensures
        r == previous_spec(len as nat, sel),
        valid_selection(len as nat, r),
{
    if len == 0 {
        sel
    } else {
        let i = match sel {
            Some(i) => i,
            None => 0,
        };
        if i == 0 {
            proof {
                vstd::arithmetic::div_mod::lemma_small_mod((len - 1) as nat, len as nat);
            }
            Some(len - 1)
        } else {
            proof {
                vstd::arithmetic::div_mod::lemma_mod_add_multiples_vanish(i - 1, len as int);
                vstd::arithmetic::div_mod::lemma_small_mod((i - 1) as nat, len as nat);
            }
            Some(i - 1)
        }
    }
}

/// The selection after removing the item at `k`, with `new_len` items left.
pub fn after_removal(new_len: usize, k: usize) -> (r: Option<usize>)
    ensures
        r == after_removal_spec(new_len as nat, k as nat),
        valid_selection(new_len as nat, r),
{
    if new_len == 0 {
        None
    } else if k >= new_len {
        Some(new_len - 1)
    } else {
        Some(k)
    }
}

proof fn lemma_next_times_some(len: nat, i: int, n: nat)
    requires
        0 < len <= usize::MAX,
        0 <= i < len,
    ensures
        next_times(len, Some(i as usize), n) == Some(((i + n) % (len as int)) as usize),
    decreases n,
{
    if n > 0 {
        lemma_next_times_some(len, i, (n - 1) as nat);
        let l = len as int;
        let m = (i + n - 1) % l;
        vstd::arithmetic::div_mod::lemma_mod_bound(i + n - 1, l);
        vstd::arithmetic::div_mod::lemma_add_mod_noop_right(1, i + n - 1, l);
        vstd::arithmetic::div_mod::lemma_mod_bound(i + n, l);
    } else {
        vstd::arithmetic::div_mod::lemma_small_mod(i as nat, len);
    }
}

proof fn lemma_previous_times_some(len: nat, i: int, n: nat)
    requires
        0 < len <= usize::MAX,
        0 <= i < len,
        n <= len,
    ensures
        previous_times(len, Some(i as usize), n) == Some(((i + len - n) % (len as int)) as usize),
    decreases n,
{
    if n > 0 {
        lemma_previous_times_some(len, i, (n - 1) as nat);
        let l = len as int;
        let m = (i + l - (n - 1)) % l;
        vstd::arithmetic::div_mod::lemma_mod_bound(i + l - (n - 1), l);
        vstd::arithmetic::div_mod::lemma_add_mod_noop_right(l - 1, i + l - (n - 1), l);
        vstd::arithmetic::div_mod::lemma_mod_add_multiples_vanish(i + l - n, l);
        vstd::arithmetic::div_mod::lemma_mod_bound(i + l - n, l);
    } else {
        vstd::arithmetic::div_mod::lemma_mod_add_multiples_vanish(i, len as int);
        vstd::arithmetic::div_mod::lemma_small_mod(i as nat, len);
    }
}

/// Stepping forward as many times as the list has items comes back to the
/// item the steps started from (the first one when nothing was selected);
/// on an empty list nothing moves, and on a one-item list one step selects
/// index 0.
pub proof fn lemma_next_full_cycle(len: nat, sel: Option<usize>)
    requires
        valid_selection(len, sel),
        len < usize::MAX,
    ensures
        len == 0 ==> next_times(len, sel, len) == sel && next_spec(len, sel) == sel,
        len > 0 ==> next_times(len, sel, len) == Some(index_or_zero(sel) as usize),
        len == 1 ==> next_spec(len, sel) == Some(0usize),
{
    if len > 0 {
        let i = index_or_zero(sel);
        if sel is None {
            assert(next_times(len, sel, len) == next_times(len, Some(0usize), len)) by {
                lemma_next_times_none_as_zero(len, len);
            }
        }
        lemma_next_times_some(len, i, len);
        vstd::arithmetic::div_mod::lemma_mod_add_multiples_vanish(i, len as int);
        vstd::arithmetic::div_mod::lemma_small_mod(i as nat, len);
        if len == 1 {
            vstd::arithmetic::div_mod::lemma_mod_bound(i + 1, 1);
        }
    }
}

proof fn lemma_next_times_none_as_zero(len: nat, n: nat)
    requires
        0 < len <= usize::MAX,
    ensures
        n > 0 ==> next_times(len, None, n) == next_times(len, Some(0usize), n),
    decreases n,
{
    if n > 1 {
        lemma_next_times_none_as_zero(len, (n - 1) as nat);
    } else if n == 1 {
        assert(next_times(len, None, 0) == None::<usize>);
        assert(next_times(len, Some(0usize), 0) == Some(0usize));
    }
}

proof fn lemma_previous_times_none_as_zero(len: nat, n: nat)
    requires
        0 < len <= usize::MAX,
    ensures
        n > 0 ==> previous_times(len, None, n) == previous_times(len, Some(0usize), n),
    decreases n,
{
    if n > 1 {
        lemma_previous_times_none_as_zero(len, (n - 1) as nat);
    } else if n == 1 {
        assert(previous_times(len, None, 0) == None::<usize>);
        assert(previous_times(len, Some(0usize), 0) == Some(0usize));
    }
}

/// Stepping back as many times as the list has items comes back to the item
/// the steps started from (the first one when nothing was selected); on an
/// empty list nothing moves, and on a one-item list one step selects index 0.
pub proof fn lemma_previous_full_cycle(len: nat, sel: Option<usize>)
    requires
        valid_selection(len, sel),
        len < usize::MAX,
    ensures
        len == 0 ==> previous_times(len, sel, len) == sel && previous_spec(len, sel) == sel,
        len > 0 ==> previous_times(len, sel, len) == Some(index_or_zero(sel) as usize),
        len == 1 ==> previous_spec(len, sel) == Some(0usize),
{
    if len > 0 {
        let i = index_or_zero(sel);
        if sel is None {
            lemma_previous_times_none_as_zero(len, len);
        }
        lemma_previous_times_some(len, i, len);
        vstd::arithmetic::div_mod::lemma_small_mod(i as nat, len);
        if len == 1 {
            vstd::arithmetic::div_mod::lemma_mod_bound(i, 1);
        }
    }
}

} // verus!
