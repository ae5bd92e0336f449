//! The borrow flag that guards an object shared with the host.
//!
//! The flag is `0` when the object is not borrowed, `usize::MAX` while it is
//! borrowed exclusively, and otherwise counts the live shared borrows.

use vstd::prelude::*;
use crate::fatal::Fatal;

verus! {

/// The flag of an object that nobody borrows.
pub const UNBORROWED: usize = 0;

/// The flag of an object that is borrowed exclusively.
pub const EXCLUSIVE: usize = usize::MAX;

/// What the flag becomes when a shared borrow is taken, or `None` when the
/// request must be refused.
pub open spec fn acquire_shared_spec(flag: usize) -> Option<usize> {
    if flag == usize::MAX {
        None
    } else {
        Some((flag + 1) as usize)
    }
}

/// What the flag becomes when an exclusive borrow is taken, or `None` when the
/// request must be refused.
pub open spec fn acquire_exclusive_spec(flag: usize) -> Option<usize> {
    if flag == 0 {
        Some(usize::MAX)
    } else {
        None
    }
}

/// What the flag becomes when a shared borrow ends.
pub open spec fn release_shared_spec(flag: usize) -> usize
    recommends
        flag > 0,
{
    (flag - 1) as usize
}

/// What the flag becomes when an exclusive borrow ends.
pub open spec fn release_exclusive_spec(flag: usize) -> usize {
    0
}

/// Takes a shared borrow: refused only while the object is borrowed exclusively.
pub fn acquire_shared(flag: usize) -> (r: Result<usize, Fatal>)
    ensures
        match acquire_shared_spec(flag) {
            Some(next) => r == Ok::<usize, Fatal>(next),
            None => r == Err::<usize, Fatal>(Fatal::RecursiveBorrow),
        },
{
    if flag == EXCLUSIVE {
        return Err(Fatal::RecursiveBorrow);
    }
    Ok(flag + 1)
}

/// Takes an exclusive borrow: refused while any borrow is alive.
pub fn acquire_exclusive(flag: usize) -> (r: Result<usize, Fatal>)
    ensures
        match acquire_exclusive_spec(flag) {
            Some(next) => r == Ok::<usize, Fatal>(next),
            None => r == Err::<usize, Fatal>(Fatal::RecursiveBorrow),
        },
{
    if flag != UNBORROWED {
        return Err(Fatal::RecursiveBorrow);
    }
    Ok(EXCLUSIVE)
}

/// Ends a shared borrow.
pub fn release_shared(flag: usize) -> (r: usize)
    requires
        flag > 0,
    ensures
        r == release_shared_spec(flag),
{
    flag - 1
}

/// Ends an exclusive borrow.
pub fn release_exclusive(flag: usize) -> (r: usize)
    ensures
        r == release_exclusive_spec(flag),
{
    UNBORROWED
}

/// The flag after `n` shared borrows are requested one after another, or
/// `None` when one of them is refused.
pub open spec fn acquire_shared_n(flag: usize, n: nat) -> Option<usize>
    decreases n,
{
    if n == 0 {
        Some(flag)
    } else {
        match acquire_shared_n(flag, (n - 1) as nat) {
            Some(f) => acquire_shared_spec(f),
            None => None,
        }
    }
}

/// The flag after `n` shared borrows end one after another.
pub open spec fn release_shared_n(flag: usize, n: nat) -> usize
    decreases n,
{
    if n == 0 {
        flag
    } else {
        release_shared_spec(release_shared_n(flag, (n - 1) as nat))
    }
}

/// While an object is borrowed exclusively, no further borrow of either kind
/// is granted.
pub proof fn lemma_exclusive_excludes_all(flag: usize)
    requires
        flag == EXCLUSIVE,
    ensures
        acquire_shared_spec(flag) is None,
        acquire_exclusive_spec(flag) is None,
{
}

/// While any borrow is alive, an exclusive borrow is refused; an exclusive
/// borrow is granted exactly on an unborrowed object.
pub proof fn lemma_exclusive_needs_unborrowed(flag: usize)
    ensures
        acquire_exclusive_spec(flag) is Some <==> flag == UNBORROWED,
{
}

/// A shared borrow is refused exactly while the object is borrowed exclusively.
pub proof fn lemma_shared_refused_iff_exclusive(flag: usize)
    ensures
        acquire_shared_spec(flag) is None <==> flag == EXCLUSIVE,
{
}

/// Once an exclusive borrow is granted, every further borrow of either kind is
/// refused until it ends.
pub proof fn lemma_granted_exclusive_blocks(flag: usize)
    requires
        acquire_exclusive_spec(flag) is Some,
    ensures
        acquire_exclusive_spec(flag) matches Some(next) && acquire_shared_spec(next) is None
            && acquire_exclusive_spec(next) is None,
{
}

/// Once a shared borrow is granted, an exclusive borrow is refused until it
/// ends.
pub proof fn lemma_granted_shared_blocks_exclusive(flag: usize)
    requires
        acquire_shared_spec(flag) is Some,
    ensures
        acquire_shared_spec(flag) matches Some(next) && acquire_exclusive_spec(next) is None,
{
}

/// Taking a shared borrow and ending it leaves the flag as it was.
pub proof fn lemma_shared_round_trip(flag: usize)
    requires
        flag != EXCLUSIVE,
    ensures
        acquire_shared_spec(flag) matches Some(next) && next > 0 && release_shared_spec(next) == flag,
{
}

/// Taking an exclusive borrow of an unborrowed object and ending it leaves the
/// object unborrowed.
pub proof fn lemma_exclusive_round_trip()
    ensures
        acquire_exclusive_spec(UNBORROWED) matches Some(next) && release_exclusive_spec(next)
            == UNBORROWED,
{
}

/// Starting from a flag that is not exclusive, `n` shared borrows in a row are
/// all granted exactly when the count does not pass `usize::MAX`, and the flag
/// then has grown by `n`.
pub proof fn lemma_shared_borrows_count(flag: usize, n: nat)
    requires
        flag != EXCLUSIVE,
    ensures
        flag + n <= usize::MAX ==> acquire_shared_n(flag, n) == Some((flag + n) as usize),
        flag + n > usize::MAX ==> acquire_shared_n(flag, n) is None,
    decreases n,
{
    if n > 0 {
        lemma_shared_borrows_count(flag, (n - 1) as nat);
        if flag + n > usize::MAX && flag + (n - 1) > usize::MAX {
            assert(acquire_shared_n(flag, (n - 1) as nat) is None);
        }
    }
}

/// `n` shared borrows that were all granted, followed by `n` releases, leave
/// the flag as it was.
pub proof fn lemma_shared_borrows_balance(flag: usize, n: nat)
    requires
        flag + n <= usize::MAX,
    ensures
        release_shared_n((flag + n) as usize, n) == flag,
{
    lemma_release_n_value((flag + n) as usize, n);
}

/// Ending `n` shared borrows lowers the flag by `n`.
proof fn lemma_release_n_value(flag: usize, n: nat)
    requires
        flag >= n,
    ensures
        release_shared_n(flag, n) == flag - n,
    decreases n,
{
    if n > 0 {
        lemma_release_n_value(flag, (n - 1) as nat);
    }
}

} // verus!
