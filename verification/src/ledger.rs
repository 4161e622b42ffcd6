//! The executable fundraiser: campaign registration with monotonic id
//! allocation, contribution accumulation with overflow-checked arithmetic,
//! and guarded withdrawal.
//!
//! The hosting platform's ambient context is threaded in explicitly: every
//! operation takes the authenticated caller (and, for contributions, the
//! attached value) as a parameter, and the external value-transfer
//! primitive is driven in two halves — [`Fundraiser::withdraw`] decides and
//! hands out a [`TransferRequest`], the harness performs the transfer, and
//! [`Fundraiser::apply_transfer_outcome`] commits or aborts on the reported
//! outcome. Ledger state is mutated only after a successful transfer.

use vstd::prelude::*;
use vstd::pervasive::unreached;
use crate::state::FundState;
use crate::state::accumulated_of;
use crate::state::campaign_of;
use crate::state::fund_rejected;
use crate::state::fund_step;
use crate::state::funding_entry_of;
use crate::state::initial_state;
use crate::state::inv;
use crate::state::register_step;
use crate::state::withdraw_approved;
use crate::state::withdraw_rejected;
use crate::state::withdraw_step;
use crate::sums::lemma_total_entry_bound;
use crate::sums::lemma_total_nonneg;
use crate::sums::lemma_total_push;
use crate::sums::lemma_total_update;
use crate::types::AccountId;
use crate::types::Balance;
use crate::types::Error;
use crate::types::FundingId;
use crate::types::Transaction;
use crate::types::TransferRequest;

verus! {

/// The allocator: the ids issued so far, packed in order, and the counter
/// they were drawn from. The counter only ever increases; once it reaches
/// the top of its range the fundraiser can register nothing further.
pub struct Transactions {
    /// Every id issued so far, in order of issue.
    transactions: Vec<FundingId>,
    /// The next id to issue; never decremented, never reused.
    next_id: FundingId,
}

/// The fundraiser: the campaign registry and the funding ledger behind one
/// interface, so callers can neither observe nor corrupt the allocator or
/// the books directly. Both arenas are indexed by the campaign id.
pub struct Fundraiser {
    /// A display name, fixed at instantiation.
    name: String,
    /// The account that instantiated the fundraiser.
    owner: AccountId,
    /// The id allocator.
    transaction_list: Transactions,
    /// Campaign terms per id; `None` once retired by a withdrawal.
    transactions: Vec<Option<Transaction>>,
    /// Accumulated contributions per id; `None` until the first one.
    current_funding: Vec<Option<Balance>>,
    /// The value the contract holds, shared across all campaigns.
    held_balance: Balance,
}

impl View for Fundraiser {
    type V = FundState;

    closed spec fn view(&self) -> FundState {
        FundState {
            name: self.name@,
            owner: self.owner,
            issued_ids: self.transaction_list.transactions@,
            next_id: self.transaction_list.next_id,
            campaigns: self.transactions@,
            funding: self.current_funding@,
            held: self.held_balance,
        }
    }
}

impl Fundraiser {
    /// A fresh fundraiser holding no campaigns and no value.
    pub fn new(name_value: String, owner_value: AccountId) -> (r: Self)
        ensures
            inv(r@),
            r@ == initial_state(name_value@, owner_value),
    {
        let r = Fundraiser {
            name: name_value,
            owner: owner_value,
            transaction_list: Transactions { transactions: Vec::new(), next_id: 0 },
            transactions: Vec::new(),
            current_funding: Vec::new(),
            held_balance: 0,
        };
        proof {
            assert(r@ =~= initial_state(r.name@, owner_value));
        }
        r
    }

    /// Register a new campaign with `caller` as beneficiary and
    /// `expected_value` as target. Succeeds with the allocator's current id
    /// exactly when the id space is not exhausted; fails with
    /// `AllocatorExhausted`, leaving the counter and everything else
    /// untouched, exactly when it is.
    pub fn create_a_funding(&mut self, caller: AccountId, expected_value: Balance) -> (r: Result<
        FundingId,
        Error,
    >)
        requires
            inv(old(self)@),
        ensures
            inv(final(self)@),
            (match r {
                Ok(fund_id) => register_step(old(self)@, final(self)@, caller, expected_value, fund_id),
                Err(e) => {
                    &&& e == Error::AllocatorExhausted
                    &&& old(self)@.next_id == FundingId::MAX
                    &&& final(self)@ == old(self)@
                },
            }),
    {
        if self.transaction_list.next_id == FundingId::MAX {
            return Err(Error::AllocatorExhausted);
        }
        let fund_id: FundingId = self.transaction_list.next_id;
        self.transaction_list.next_id = fund_id + 1;
        let transaction = Transaction { callee: caller, expected_value: expected_value };
        self.transactions.push(Some(transaction));
        self.current_funding.push(None);
        self.transaction_list.transactions.push(fund_id);
        proof {
            lemma_total_push(old(self)@.funding, None);
        }
        Ok(fund_id)
    }

    /// Look up a campaign's terms; `None` if the id was never issued or the
    /// campaign has been retired by a withdrawal. No side effects.
    pub fn get_funding(&self, fund_id: FundingId) -> (r: Option<Transaction>)
        ensures
            r == campaign_of(self@, fund_id),
    {
        let idx: usize = fund_id as usize;
        if idx < self.transactions.len() {
            self.transactions[idx]
        } else {
            None
        }
    }

    /// Look up a campaign's accumulated contributions; `None` if none was
    /// ever recorded, or the campaign was retired. No side effects.
    pub fn get_funding_status(&self, fund_id: FundingId) -> (r: Option<Balance>)
        ensures
            r == funding_entry_of(self@, fund_id),
    {
        let idx: usize = fund_id as usize;
        if idx < self.current_funding.len() {
            self.current_funding[idx]
        } else {
            None
        }
    }

    /// Contribute `value` (the amount attached to the call by `caller`)
    /// toward `fund_id`. Succeeds, growing the entry and escrowing the
    /// value into the held balance, exactly when the campaign is registered,
    /// was strictly under target before the call, and neither addition
    /// overflows; otherwise fails with the matching error and changes
    /// nothing. A contribution that pushes the total past the target is
    /// accepted as-is.
    pub fn fund(&mut self, caller: AccountId, value: Balance, fund_id: FundingId) -> (r: Result<
        (),
        Error,
    >)
        requires
            inv(old(self)@),
        ensures
            inv(final(self)@),
            (match r {
                Ok(()) => fund_step(old(self)@, final(self)@, value, fund_id),
                Err(e) => {
                    &&& final(self)@ == old(self)@
                    &&& fund_rejected(old(self)@, value, fund_id, e)
                },
            }),
    {
        match self.ensure_transaction_exists(fund_id) {
            Ok(_) => {},
            Err(e) => {
                return Err(e);
            },
        }
        match self.ensure_funding_is_not_exceed(fund_id) {
            Ok(()) => {},
            Err(e) => {
                return Err(e);
            },
        }
        let idx: usize = fund_id as usize;
        let current: Balance = match self.current_funding[idx] {
            Some(v) => v,
            None => 0,
        };
        let new_total: Balance = match current.checked_add(value) {
            Some(v) => v,
            None => {
                return Err(Error::ArithmeticOverflow);
            },
        };
        let new_held: Balance = match self.held_balance.checked_add(value) {
            Some(v) => v,
            None => {
                return Err(Error::ArithmeticOverflow);
            },
        };
        self.current_funding[idx] = Some(new_total);
        self.held_balance = new_held;
        proof {
            lemma_total_update(old(self)@.funding, fund_id as int, Some(new_total));
        }
        Ok(())
    }

    /// Decide a withdrawal of `fund_id` requested by `caller`: check, in
    /// order, that the campaign is registered, that the caller is its
    /// beneficiary, that the target is met, and that the held balance covers
    /// the accumulated amount. On approval, return the instruction the
    /// harness must hand to the external value-transfer primitive; nothing
    /// is mutated until [`Self::apply_transfer_outcome`] learns the outcome.
    pub fn withdraw(&self, caller: AccountId, fund_id: FundingId) -> (r: Result<
        TransferRequest,
        Error,
    >)
        requires
            inv(self@),
        ensures
            (match r {
                Ok(req) => {
                    &&& withdraw_approved(self@, caller, fund_id)
                    &&& req.destination == caller
                    &&& req.amount == accumulated_of(self@, fund_id)
                },
                Err(e) => withdraw_rejected(self@, caller, fund_id, e),
            }),
    {
        match self.ensure_transaction_exists(fund_id) {
            Ok(_) => {},
            Err(e) => {
                return Err(e);
            },
        }
        match self.ensure_transaction_owner(fund_id, caller) {
            Ok(()) => {},
            Err(e) => {
                return Err(e);
            },
        }
        match self.ensure_funding_is_full(fund_id) {
            Ok(()) => {},
            Err(e) => {
                return Err(e);
            },
        }
        let idx: usize = fund_id as usize;
        let funding: Balance = match self.current_funding[idx] {
            Some(v) => v,
            None => 0,
        };
        if funding > self.held_balance {
            return Err(Error::InsufficientContractBalance);
        }
        Ok(TransferRequest { destination: caller, amount: funding })
    }

    /// Commit or abort the withdrawal of `fund_id` by `caller`, given the
    /// outcome the external value-transfer primitive reported for the
    /// request that [`Self::withdraw`] approved. All guards are re-checked;
    /// a failed transfer aborts the whole operation with `TransferFailed`
    /// and mutates nothing, so the beneficiary may retry. On success the
    /// campaign and its ledger entry are permanently retired and the
    /// accumulated amount leaves the held balance.
    pub fn apply_transfer_outcome(
        &mut self,
        caller: AccountId,
        fund_id: FundingId,
        transfer_ok: bool,
    ) -> (r: Result<Balance, Error>)
        requires
            inv(old(self)@),
        ensures
            inv(final(self)@),
            (match r {
                Ok(amount) => {
                    &&& transfer_ok
                    &&& amount == accumulated_of(old(self)@, fund_id)
                    &&& withdraw_step(old(self)@, final(self)@, caller, fund_id)
                },
                Err(e) => {
                    &&& final(self)@ == old(self)@
                    &&& (match e {
                        Error::TransferFailed => {
                            &&& withdraw_approved(old(self)@, caller, fund_id)
                            &&& !transfer_ok
                        },
                        _ => withdraw_rejected(old(self)@, caller, fund_id, e),
                    })
                },
            }),
    {
        let req: TransferRequest = match self.withdraw(caller, fund_id) {
            Ok(req) => req,
            Err(e) => {
                return Err(e);
            },
        };
        if !transfer_ok {
            return Err(Error::TransferFailed);
        }
        let idx: usize = fund_id as usize;
        self.transactions[idx] = None;
        self.current_funding[idx] = None;
        self.held_balance = self.held_balance - req.amount;
        proof {
            lemma_total_update(old(self)@.funding, fund_id as int, None);
        }
        Ok(req.amount)
    }

    /// The total value the contract currently holds.
    pub fn current_balance(&self) -> (r: Balance)
        ensures
            r == self@.held,
    {
        self.held_balance
    }

    /// Under the conservation invariant the held balance always covers any
    /// single campaign's accumulated amount, so a withdrawal whose other
    /// three guards pass is never refused for `InsufficientContractBalance`:
    /// the books and the held value cannot diverge.
    pub proof fn lemma_no_balance_divergence(s: FundState, fund_id: FundingId)
        requires
            inv(s),
        ensures
            accumulated_of(s, fund_id) <= s.held,
    {
        if fund_id < s.funding.len() {
            lemma_total_entry_bound(s.funding, fund_id as int);
        }
    }

    /// Guard: the campaign must exist. Returns its terms, or
    /// `UnknownCampaign` exactly when `fund_id` was never issued or was
    /// retired.
    fn ensure_transaction_exists(&self, fund_id: FundingId) -> (r: Result<Transaction, Error>)
        ensures
            (match r {
                Ok(t) => campaign_of(self@, fund_id) == Some(t),
                Err(e) => {
                    &&& e == Error::UnknownCampaign
                    &&& campaign_of(self@, fund_id) is None
                },
            }),
    {
        let idx: usize = fund_id as usize;
        if idx < self.transactions.len() {
            match self.transactions[idx] {
                Some(t) => Ok(t),
                None => Err(Error::UnknownCampaign),
            }
        } else {
            Err(Error::UnknownCampaign)
        }
    }

    /// Guard: the caller must be the campaign's beneficiary. Fails with
    /// `NotBeneficiary` exactly when it is not.
    fn ensure_transaction_owner(&self, fund_id: FundingId, caller_id: AccountId) -> (r: Result<
        (),
        Error,
    >)
        requires
            campaign_of(self@, fund_id) is Some,
        ensures
            (match r {
                Ok(()) => campaign_of(self@, fund_id) matches Some(t) && t.callee == caller_id,
                Err(e) => {
                    &&& e == Error::NotBeneficiary
                    &&& (campaign_of(self@, fund_id) matches Some(t) && t.callee != caller_id)
                },
            }),
    {
        let idx: usize = fund_id as usize;
        let transaction: Transaction = match self.transactions[idx] {
            Some(t) => t,
            None => unreached(),
        };
        if transaction.callee == caller_id {
            Ok(())
        } else {
            Err(Error::NotBeneficiary)
        }
    }

    /// Guard for contributions: the accumulated amount (absence counting as
    /// zero) must still be strictly under the target. Fails with
    /// `AlreadyFullyFunded` exactly when the target is already met.
    fn ensure_funding_is_not_exceed(&self, fund_id: FundingId) -> (r: Result<(), Error>)
        requires
            inv(self@),
            campaign_of(self@, fund_id) is Some,
        ensures
            (match r {
                Ok(()) => campaign_of(self@, fund_id) matches Some(t)
                    && accumulated_of(self@, fund_id) < t.expected_value,
                Err(e) => {
                    &&& e == Error::AlreadyFullyFunded
                    &&& (campaign_of(self@, fund_id) matches Some(t)
                        && accumulated_of(self@, fund_id) >= t.expected_value)
                },
            }),
    {
        let idx: usize = fund_id as usize;
        let transaction: Transaction = match self.transactions[idx] {
            Some(t) => t,
            None => unreached(),
        };
        let current: Balance = match self.current_funding[idx] {
            Some(v) => v,
            None => 0,
        };
        if current < transaction.expected_value {
            Ok(())
        } else {
            Err(Error::AlreadyFullyFunded)
        }
    }

    /// Guard for withdrawals: the accumulated amount (absence counting as
    /// zero) must have reached the target. Fails with `NotFullyFunded`
    /// exactly when it has not.
    fn ensure_funding_is_full(&self, fund_id: FundingId) -> (r: Result<(), Error>)
        requires
            inv(self@),
            campaign_of(self@, fund_id) is Some,
        ensures
            (match r {
                Ok(()) => campaign_of(self@, fund_id) matches Some(t)
                    && accumulated_of(self@, fund_id) >= t.expected_value,
                Err(e) => {
                    &&& e == Error::NotFullyFunded
                    &&& (campaign_of(self@, fund_id) matches Some(t)
                        && accumulated_of(self@, fund_id) < t.expected_value)
                },
            }),
    {
        let idx: usize = fund_id as usize;
        let transaction: Transaction = match self.transactions[idx] {
            Some(t) => t,
            None => unreached(),
        };
        let current: Balance = match self.current_funding[idx] {
            Some(v) => v,
            None => 0,
        };
        if current >= transaction.expected_value {
            Ok(())
        } else {
            Err(Error::NotFullyFunded)
        }
    }
}

} // verus!
