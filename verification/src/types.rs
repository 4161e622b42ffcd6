//! Plain data carried through the ledger: identifiers, amounts, campaign
//! terms, transfer instructions, and the error taxonomy.

use vstd::prelude::*;

verus! {

/// Identifier of a funding campaign, allocated sequentially starting at zero
/// and never reused.
pub type FundingId = u32;

/// An amount of native value, in the platform's base unit.
pub type Balance = u128;

/// An account identity, as supplied by the hosting platform's
/// authentication; the ledger never accepts it as untrusted input.
pub type AccountId = u128;

/// Why an operation was refused. Every precondition violation aborts the
/// whole call with one of these; no operation ever half-applies.
#[derive(Copy, Clone, Debug, PartialEq, Eq, Structural)]
pub enum Error {
    /// The id was never issued, or its campaign was retired by a withdrawal.
    UnknownCampaign,
    /// A contribution was attempted against a campaign whose accumulated
    /// amount already meets its target.
    AlreadyFullyFunded,
    /// A withdrawal was attempted before the target was reached.
    NotFullyFunded,
    /// A withdrawal was attempted by someone other than the beneficiary.
    NotBeneficiary,
    /// The ledger's bookkeeping exceeds the value actually held; a critical
    /// divergence, never silently tolerated.
    InsufficientContractBalance,
    /// The identifier space is exhausted; no further campaigns can ever be
    /// registered.
    AllocatorExhausted,
    /// An addition would exceed the representable amount range.
    ArithmeticOverflow,
    /// The external value-transfer primitive reported failure; ledger state
    /// is left unchanged so the withdrawal may be retried.
    TransferFailed,
}

/// A campaign's immutable terms, fixed at registration.
#[derive(Copy, Clone, Debug, PartialEq, Eq, Structural)]
pub struct Transaction {
    /// The beneficiary: the sole account entitled to withdraw.
    pub callee: AccountId,
    /// The funding target that must be reached before withdrawal.
    pub expected_value: Balance,
}

/// An instruction to the external value-transfer primitive: move `amount`
/// out of contract-held balance to `destination`.
#[derive(Copy, Clone, Debug, PartialEq, Eq, Structural)]
pub struct TransferRequest {
    /// The account to credit.
    pub destination: AccountId,
    /// The amount to move.
    pub amount: Balance,
}

} // verus!
