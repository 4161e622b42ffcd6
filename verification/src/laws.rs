//! The ledger's global laws, proved over the transition relations of
//! [`crate::state`]: conservation of value, strictly monotonic id
//! allocation, and the permanence of retirement. Each executable operation
//! ensures that its effect is one of those transitions, so these laws hold
//! of every run of the ledger.

use vstd::prelude::*;
use crate::state::FundState;
use crate::state::accumulated_of;
use crate::state::campaign_of;
use crate::state::fund_step;
use crate::state::funding_entry_of;
use crate::state::inv;
use crate::state::register_step;
use crate::state::step;
use crate::state::withdraw_approved;
use crate::state::withdraw_step;
use crate::sums::lemma_total_push;
use crate::sums::lemma_total_update;
use crate::sums::total_funding;
use crate::types::AccountId;
use crate::types::Balance;
use crate::types::FundingId;

verus! {

/// A run of the ledger: a non-empty sequence of states that starts
/// well-formed and advances only by ledger transitions.
pub open spec fn valid_trace(tr: Seq<FundState>) -> bool {
    &&& tr.len() > 0
    &&& inv(tr[0])
    &&& (forall|k: int| 0 <= k < tr.len() - 1 ==> #[trigger] step(tr[k], tr[k + 1]))
}

/// A state stays where it is — a refused call, or a pure lookup — and that
/// is one step of the history.
pub proof fn lemma_no_change_is_step(s: FundState)
    ensures
        step(s, s),
{
}

/// A successful registration is one step of the history.
pub proof fn lemma_register_is_step(
    pre: FundState,
    post: FundState,
    caller: AccountId,
    expected_value: Balance,
    fund_id: FundingId,
)
    requires
        register_step(pre, post, caller, expected_value, fund_id),
    ensures
        step(pre, post),
{
}

/// A successful contribution is one step of the history.
pub proof fn lemma_fund_is_step(
    pre: FundState,
    post: FundState,
    value: Balance,
    fund_id: FundingId,
)
    requires
        fund_step(pre, post, value, fund_id),
    ensures
        step(pre, post),
{
}

/// A completed withdrawal is one step of the history.
pub proof fn lemma_withdraw_is_step(
    pre: FundState,
    post: FundState,
    caller: AccountId,
    fund_id: FundingId,
)
    requires
        withdraw_step(pre, post, caller, fund_id),
    ensures
        step(pre, post),
{
}

/// Every id ever issued sits strictly below the allocator counter; together
/// with the counter's monotonicity this is why an id is never reissued.
pub proof fn lemma_issued_below_counter(s: FundState, k: int)
    requires
        inv(s),
        0 <= k < s.issued_ids.len(),
    ensures
        s.issued_ids[k] < s.next_id,
{
}

/// Every single transition preserves well-formedness, conservation
/// included.
pub proof fn lemma_step_preserves_inv(pre: FundState, post: FundState)
    requires
        inv(pre),
        step(pre, post),
    ensures
        inv(post),
{
    if post == pre {
    } else if exists|caller: AccountId, expected_value: Balance, fund_id: FundingId|
        register_step(pre, post, caller, expected_value, fund_id) {
        let (caller, expected_value, fund_id) = choose|
            caller: AccountId,
            expected_value: Balance,
            fund_id: FundingId,
        | register_step(pre, post, caller, expected_value, fund_id);
        lemma_total_push(pre.funding, None);
    } else if exists|value: Balance, fund_id: FundingId| fund_step(pre, post, value, fund_id) {
        let (value, fund_id) = choose|value: Balance, fund_id: FundingId|
            fund_step(pre, post, value, fund_id);
        lemma_total_update(
            pre.funding,
            fund_id as int,
            Some((accumulated_of(pre, fund_id) + value) as Balance),
        );
    } else {
        let (caller, fund_id) = choose|caller: AccountId, fund_id: FundingId|
            withdraw_step(pre, post, caller, fund_id);
        lemma_total_update(pre.funding, fund_id as int, None);
    }
}

/// Well-formedness holds at every point of a run.
pub proof fn lemma_trace_inv(tr: Seq<FundState>, k: int)
    requires
        valid_trace(tr),
        0 <= k < tr.len(),
    ensures
        inv(tr[k]),
    decreases k,
{
    if k > 0 {
        let m = k - 1;
        lemma_trace_inv(tr, m);
        assert(step(tr[m], tr[m + 1]));
        lemma_step_preserves_inv(tr[m], tr[k]);
    }
}

/// Conservation: at every point of every run, the sum of the accumulated
/// amounts over all live campaigns never exceeds the held balance.
pub proof fn lemma_conservation(tr: Seq<FundState>, k: int)
    requires
        valid_trace(tr),
        0 <= k < tr.len(),
    ensures
        total_funding(tr[k].funding) <= tr[k].held,
{
    lemma_trace_inv(tr, k);
}

/// No transition ever decreases the allocator counter.
pub proof fn lemma_step_next_id_nondecreasing(pre: FundState, post: FundState)
    requires
        step(pre, post),
    ensures
        post.next_id >= pre.next_id,
{
}

/// The allocator counter is monotone along every run.
pub proof fn lemma_trace_next_id_nondecreasing(tr: Seq<FundState>, i: int, j: int)
    requires
        valid_trace(tr),
        0 <= i <= j < tr.len(),
    ensures
        tr[i].next_id <= tr[j].next_id,
    decreases j - i,
{
    if i < j {
        let m = j - 1;
        lemma_trace_next_id_nondecreasing(tr, i, m);
        assert(step(tr[m], tr[m + 1]));
        lemma_step_next_id_nondecreasing(tr[m], tr[j]);
    }
}

/// Monotonic ids: of two successful registrations in a run, the later one
/// returns the strictly larger id — ids strictly increase and are never
/// repeated, whatever happens in between, withdrawals included.
pub proof fn lemma_monotonic_ids(
    tr: Seq<FundState>,
    i: int,
    j: int,
    caller_i: AccountId,
    value_i: Balance,
    id_i: FundingId,
    caller_j: AccountId,
    value_j: Balance,
    id_j: FundingId,
)
    requires
        valid_trace(tr),
        0 <= i < j,
        j + 1 < tr.len(),
        register_step(tr[i], tr[i + 1], caller_i, value_i, id_i),
        register_step(tr[j], tr[j + 1], caller_j, value_j, id_j),
    ensures
        id_i < id_j,
{
    lemma_trace_next_id_nondecreasing(tr, i + 1, j);
}

/// A completed withdrawal retires the campaign for good, as far as one
/// step sees: both lookups come back absent, no caller can ever have a
/// further withdrawal approved, and no further contribution step can target
/// the id.
pub proof fn lemma_withdraw_retires(
    pre: FundState,
    post: FundState,
    caller: AccountId,
    fund_id: FundingId,
)
    requires
        inv(pre),
        withdraw_step(pre, post, caller, fund_id),
    ensures
        campaign_of(post, fund_id) is None,
        funding_entry_of(post, fund_id) is None,
        forall|c: AccountId| !(#[trigger] withdraw_approved(post, c, fund_id)),
        forall|post2: FundState, value: Balance| !(#[trigger] fund_step(post, post2, value, fund_id)),
{
}

/// One transition cannot resurrect a retired id: once an issued id carries
/// no campaign, a single step leaves it that way (registration only ever
/// appends at the counter, which sits strictly above every issued id).
pub proof fn lemma_step_preserves_absence(pre: FundState, post: FundState, fund_id: FundingId)
    requires
        inv(pre),
        step(pre, post),
        fund_id < pre.next_id,
        campaign_of(pre, fund_id) is None,
    ensures
        fund_id < post.next_id,
        campaign_of(post, fund_id) is None,
{
    if post == pre {
    } else if exists|caller: AccountId, expected_value: Balance, id: FundingId|
        register_step(pre, post, caller, expected_value, id) {
        let (caller, expected_value, id) = choose|
            caller: AccountId,
            expected_value: Balance,
            id: FundingId,
        | register_step(pre, post, caller, expected_value, id);
        assert(post.campaigns[fund_id as int] == pre.campaigns[fund_id as int]);
    } else if exists|value: Balance, id: FundingId| fund_step(pre, post, value, id) {
        let (value, id) = choose|value: Balance, id: FundingId| fund_step(pre, post, value, id);
    } else {
        let (caller, id) = choose|caller: AccountId, id: FundingId|
            withdraw_step(pre, post, caller, id);
        assert(post.campaigns[fund_id as int] is None);
    }
}

/// Idempotent absence: once a withdrawal (or anything else) has left an
/// issued id without a campaign, every later state of the run still shows
/// it absent — lookups return nothing, and by the operations' contracts any
/// further contribution or withdrawal fails with `UnknownCampaign`.
pub proof fn lemma_retired_stays_retired(tr: Seq<FundState>, i: int, j: int, fund_id: FundingId)
    requires
        valid_trace(tr),
        0 <= i <= j < tr.len(),
        fund_id < tr[i].next_id,
        campaign_of(tr[i], fund_id) is None,
    ensures
        fund_id < tr[j].next_id,
        campaign_of(tr[j], fund_id) is None,
        funding_entry_of(tr[j], fund_id) is None,
    decreases j - i,
{
    if i == j {
        lemma_trace_inv(tr, j);
    } else {
        let m = j - 1;
        lemma_trace_inv(tr, m);
        lemma_retired_stays_retired(tr, i, m, fund_id);
        assert(step(tr[m], tr[m + 1]));
        lemma_step_preserves_absence(tr[m], tr[j], fund_id);
        lemma_trace_inv(tr, j);
    }
}

} // verus!
