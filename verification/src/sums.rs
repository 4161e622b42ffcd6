//! The total amount recorded by a funding ledger, and the arithmetic facts
//! about it that the conservation argument needs.

use vstd::prelude::*;
use crate::types::Balance;

verus! {

/// The amount held by one ledger entry; absence means zero.
pub open spec fn entry_amount(e: Option<Balance>) -> int {
    match e {
        Some(v) => v as int,
        None => 0,
    }
}

/// The sum of `entry_amount` over every entry of a funding ledger.
pub open spec fn total_funding(s: Seq<Option<Balance>>) -> int
    decreases s.len(),
{
    if s.len() == 0 {
        0
    } else {
        total_funding(s.drop_last()) + entry_amount(s.last())
    }
}

/// A ledger total is never negative.
pub proof fn lemma_total_nonneg(s: Seq<Option<Balance>>)
    ensures
        total_funding(s) >= 0,
    decreases s.len(),
{
    if s.len() > 0 {
        lemma_total_nonneg(s.drop_last());
    }
}

/// Appending an entry adds exactly its amount to the total.
pub proof fn lemma_total_push(s: Seq<Option<Balance>>, e: Option<Balance>)
    ensures
        total_funding(s.push(e)) == total_funding(s) + entry_amount(e),
{
    assert(s.push(e).drop_last() =~= s);
}

/// Replacing one entry changes the total by the difference of the amounts.
pub proof fn lemma_total_update(s: Seq<Option<Balance>>, i: int, e: Option<Balance>)
    requires
        0 <= i < s.len(),
    ensures
        total_funding(s.update(i, e)) == total_funding(s) - entry_amount(s[i]) + entry_amount(e),
    decreases s.len(),
{
    let t = s.update(i, e);
    if i == s.len() - 1 {
        assert(t.drop_last() =~= s.drop_last());
        assert(t.last() == e);
    } else {
        assert(t.drop_last() =~= s.drop_last().update(i, e));
        assert(t.last() == s.last());
        lemma_total_update(s.drop_last(), i, e);
    }
}

/// No single entry exceeds the total of its ledger.
pub proof fn lemma_total_entry_bound(s: Seq<Option<Balance>>, i: int)
    requires
        0 <= i < s.len(),
    ensures
        entry_amount(s[i]) <= total_funding(s),
    decreases s.len(),
{
    if i == s.len() - 1 {
        lemma_total_nonneg(s.drop_last());
    } else {
        lemma_total_entry_bound(s.drop_last(), i);
        assert(s.drop_last()[i] == s[i]);
    }
}

} // verus!
