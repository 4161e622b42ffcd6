//! The mathematical model of the ledger: a ghost state, the well-formedness
//! invariant, and the transition relations that the executable operations
//! are specified against.

use vstd::prelude::*;
use crate::sums::entry_amount;
use crate::sums::total_funding;
use crate::types::AccountId;
use crate::types::Balance;
use crate::types::Error;
use crate::types::FundingId;
use crate::types::Transaction;

verus! {

/// The abstract state of a fundraiser. Campaigns and their accumulated
/// funding are arenas indexed by the campaign id; a `None` slot is a
/// campaign that was retired (or, for funding, one with no contribution
/// yet). `held` is the total value the contract controls.
#[verifier::ext_equal]
pub ghost struct FundState {
    /// The fundraiser's display name.
    pub name: Seq<char>,
    /// The account that instantiated the fundraiser.
    pub owner: AccountId,
    /// Every id ever issued, in order of issue.
    pub issued_ids: Seq<FundingId>,
    /// The allocator counter: the next id to issue.
    pub next_id: FundingId,
    /// Campaign terms, indexed by id; `None` once retired.
    pub campaigns: Seq<Option<Transaction>>,
    /// Accumulated contributions, indexed by id; `None` means zero.
    pub funding: Seq<Option<Balance>>,
    /// The contract-held balance, shared across all campaigns.
    pub held: Balance,
}

/// The campaign currently registered under `id`, if any.
pub open spec fn campaign_of(s: FundState, id: FundingId) -> Option<Transaction> {
    if id < s.campaigns.len() {
        s.campaigns[id as int]
    } else {
        None
    }
}

/// The ledger entry currently recorded under `id`, if any.
pub open spec fn funding_entry_of(s: FundState, id: FundingId) -> Option<Balance> {
    if id < s.funding.len() {
        s.funding[id as int]
    } else {
        None
    }
}

/// The amount accumulated toward `id`; an absent entry counts as zero.
pub open spec fn accumulated_of(s: FundState, id: FundingId) -> int {
    entry_amount(funding_entry_of(s, id))
}

/// Well-formedness of the ledger state:
/// - both arenas cover exactly the ids issued so far;
/// - the issued ids are `0, 1, ..., next_id - 1`, in order;
/// - a ledger entry exists only for a registered campaign;
/// - conservation: the recorded total never exceeds the held balance.
pub open spec fn inv(s: FundState) -> bool {
    &&& s.campaigns.len() == s.next_id
    &&& s.funding.len() == s.next_id
    &&& s.issued_ids.len() == s.next_id
    &&& (forall|i: int| 0 <= i < s.issued_ids.len() ==> s.issued_ids[i] == i)
    &&& (forall|i: int|
        0 <= i < s.funding.len() && s.funding[i] is Some ==> s.campaigns[i] is Some)
    &&& total_funding(s.funding) <= s.held
}

/// The state a fresh fundraiser starts in: nothing issued, nothing held.
pub open spec fn initial_state(name: Seq<char>, owner: AccountId) -> FundState {
    FundState {
        name: name,
        owner: owner,
        issued_ids: Seq::empty(),
        next_id: 0,
        campaigns: Seq::empty(),
        funding: Seq::empty(),
        held: 0,
    }
}

/// A successful registration: `fund_id` is the allocator's current value,
/// the counter advances by one, and a campaign with the caller as
/// beneficiary is appended; no contribution state is created and no value
/// moves.
pub open spec fn register_step(
    pre: FundState,
    post: FundState,
    caller: AccountId,
    expected_value: Balance,
    fund_id: FundingId,
) -> bool {
    &&& pre.next_id < FundingId::MAX
    &&& fund_id == pre.next_id
    &&& post.name == pre.name
    &&& post.owner == pre.owner
    &&& post.issued_ids == pre.issued_ids.push(fund_id)
    &&& post.next_id == pre.next_id + 1
    &&& post.campaigns == pre.campaigns.push(
        Some(Transaction { callee: caller, expected_value }),
    )
    &&& post.funding == pre.funding.push(None::<Balance>)
    &&& post.held == pre.held
}

/// A successful contribution of `value` toward `fund_id`: the campaign is
/// registered and not yet fully funded, neither addition overflows, the
/// entry grows by exactly `value`, and the attached value is escrowed into
/// the held balance. Over-funding past the target is accepted as-is.
pub open spec fn fund_step(
    pre: FundState,
    post: FundState,
    value: Balance,
    fund_id: FundingId,
) -> bool {
    &&& campaign_of(pre, fund_id) matches Some(t)
    &&& accumulated_of(pre, fund_id) < t.expected_value
    &&& accumulated_of(pre, fund_id) + value <= Balance::MAX
    &&& pre.held + value <= Balance::MAX
    &&& post.name == pre.name
    &&& post.owner == pre.owner
    &&& post.issued_ids == pre.issued_ids
    &&& post.next_id == pre.next_id
    &&& post.campaigns == pre.campaigns
    &&& post.funding == pre.funding.update(
        fund_id as int,
        Some((accumulated_of(pre, fund_id) + value) as Balance),
    )
    &&& post.held == pre.held + value
}

/// Exactly when a contribution is refused, and with which error. The error
/// cases partition the complement of the `fund_step` guard, so together the
/// two pin the outcome of every contribution.
pub open spec fn fund_rejected(
    s: FundState,
    value: Balance,
    fund_id: FundingId,
    e: Error,
) -> bool {
    match e {
        Error::UnknownCampaign => campaign_of(s, fund_id) is None,
        Error::AlreadyFullyFunded => {
            &&& campaign_of(s, fund_id) matches Some(t)
            &&& accumulated_of(s, fund_id) >= t.expected_value
        },
        Error::ArithmeticOverflow => {
            &&& campaign_of(s, fund_id) matches Some(t)
            &&& accumulated_of(s, fund_id) < t.expected_value
            &&& (accumulated_of(s, fund_id) + value > Balance::MAX
                || s.held + value > Balance::MAX)
        },
        _ => false,
    }
}

/// All four withdrawal guards hold for `caller` on `fund_id`: the campaign
/// is registered, the caller is its beneficiary, the target is met, and the
/// held balance covers the accumulated amount.
pub open spec fn withdraw_approved(s: FundState, caller: AccountId, fund_id: FundingId) -> bool {
    &&& campaign_of(s, fund_id) matches Some(t)
    &&& t.callee == caller
    &&& accumulated_of(s, fund_id) >= t.expected_value
    &&& accumulated_of(s, fund_id) <= s.held
}

/// Exactly when a withdrawal is refused, and with which error; the guards
/// are checked in this order, so the cases are disjoint and, together with
/// `withdraw_approved`, cover every state.
pub open spec fn withdraw_rejected(
    s: FundState,
    caller: AccountId,
    fund_id: FundingId,
    e: Error,
) -> bool {
    match e {
        Error::UnknownCampaign => campaign_of(s, fund_id) is None,
        Error::NotBeneficiary => {
            &&& campaign_of(s, fund_id) matches Some(t)
            &&& t.callee != caller
        },
        Error::NotFullyFunded => {
            &&& campaign_of(s, fund_id) matches Some(t)
            &&& t.callee == caller
            &&& accumulated_of(s, fund_id) < t.expected_value
        },
        Error::InsufficientContractBalance => {
            &&& campaign_of(s, fund_id) matches Some(t)
            &&& t.callee == caller
            &&& accumulated_of(s, fund_id) >= t.expected_value
            &&& accumulated_of(s, fund_id) > s.held
        },
        _ => false,
    }
}

/// A completed withdrawal: every guard held, the transfer succeeded, the
/// accumulated amount leaves the held balance, and both the campaign and
/// its ledger entry are permanently retired. The allocator is untouched, so
/// the id is never reissued.
pub open spec fn withdraw_step(
    pre: FundState,
    post: FundState,
    caller: AccountId,
    fund_id: FundingId,
) -> bool {
    &&& withdraw_approved(pre, caller, fund_id)
    &&& post.name == pre.name
    &&& post.owner == pre.owner
    &&& post.issued_ids == pre.issued_ids
    &&& post.next_id == pre.next_id
    &&& post.campaigns == pre.campaigns.update(fund_id as int, None::<Transaction>)
    &&& post.funding == pre.funding.update(fund_id as int, None::<Balance>)
    &&& post.held == pre.held - accumulated_of(pre, fund_id)
}

/// One step of the ledger's history: either nothing observable changed (a
/// refused call, or a pure lookup), or exactly one operation succeeded.
pub open spec fn step(pre: FundState, post: FundState) -> bool {
    ||| post == pre
    ||| (exists|caller: AccountId, expected_value: Balance, fund_id: FundingId|
        register_step(pre, post, caller, expected_value, fund_id))
    ||| (exists|value: Balance, fund_id: FundingId| fund_step(pre, post, value, fund_id))
    ||| (exists|caller: AccountId, fund_id: FundingId| withdraw_step(pre, post, caller, fund_id))
}

} // verus!
