//! A crowdfunding escrow ledger.
//!
//! Callers register funding campaigns (here called transactions, each with a
//! beneficiary and a target amount), contribute value toward a campaign, and
//! the beneficiary withdraws the accumulated balance once the target is met.
//! The ledger is a small trust-critical state machine: its value lies in the
//! proved accounting and authorization guarantees, stated over the ghost
//! model in [`state`] and established by the laws in [`laws`].
//!
//! The hosting platform's ambient services (the authenticated caller, the
//! value attached to a call, and the value-transfer primitive) are modeled as
//! explicit inputs: every operation takes the caller and any attached value
//! as parameters, and the outcome of an external transfer is handed back to
//! the ledger by the harness that performed it.

pub mod laws;
pub mod ledger;
pub mod state;
pub mod sums;
pub mod types;
