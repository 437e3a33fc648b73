//! Sums of token amounts and the range they must stay in.

use vstd::prelude::*;

verus! {

/// Whether `amount` can be added to what is held: nothing held leaves room.
pub open spec fn room(held: Option<u128>, amount: u128) -> bool {
    match held {
        Some(h) => h + amount <= u128::MAX,
        None => true,
    }
}

/// The sum of the amounts.
pub open spec fn total(amounts: Seq<u128>) -> nat
    decreases amounts.len(),
{
    if amounts.len() == 0 {
        0
    } else {
        total(amounts.drop_last()) + amounts.last() as nat
    }
}

/// The sum of the first `k` amounts is at most the sum of all.
pub proof fn lemma_total_prefix(amounts: Seq<u128>, k: int)
    requires
        0 <= k <= amounts.len(),
    ensures
        total(amounts.take(k)) <= total(amounts),
    decreases amounts.len() - k,
{
    if k == amounts.len() {
        assert(amounts.take(k) =~= amounts);
    } else {
        lemma_total_prefix(amounts, k + 1);
        assert(amounts.take(k + 1).drop_last() =~= amounts.take(k));
    }
}

/// Whether `amount` can be added to what is held.
pub fn has_room(held: Option<u128>, amount: u128) -> (r: bool)
    ensures
        r == room(held, amount),
{
    match held {
        Some(h) => h <= u128::MAX - amount,
        None => true,
    }
}

/// Whether the sum of the amounts stays in the range of amounts.
pub fn total_fits(amounts: &Vec<u128>) -> (r: bool)
    ensures
        r == (total(amounts@) <= u128::MAX),
{
    let mut sum: u128 = 0;
    let mut i: usize = 0;
    while i < amounts.len()
        invariant
            i <= amounts.len(),
            sum == total(amounts@.take(i as int)),
        decreases amounts.len() - i,
    {
        proof {
            assert(amounts@.take(i + 1).drop_last() =~= amounts@.take(i as int));
            lemma_total_prefix(amounts@, i + 1);
        }
        if amounts[i] > u128::MAX - sum {
            return false;
        }
        sum = sum + amounts[i];
        i = i + 1;
    }
    proof {
        assert(amounts@.take(i as int) =~= amounts@);
    }
    true
}

} // verus!
