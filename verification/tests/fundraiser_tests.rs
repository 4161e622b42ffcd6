use fundraiser::ledger::Fundraiser;
use fundraiser::types::Error;
use fundraiser::types::Transaction;
use fundraiser::types::TransferRequest;

const BENEFICIARY: u128 = 5;
const OTHER: u128 = 6;
const DONOR: u128 = 9;

fn fresh() -> Fundraiser {
    Fundraiser::new(String::from("pool"), 1)
}

/// Runs the full withdrawal protocol: decide, "perform" the transfer with
/// the given outcome, then commit or abort.
fn run_withdraw(f: &mut Fundraiser, caller: u128, id: u32, transfer_ok: bool) -> Result<u128, Error> {
    let _req: TransferRequest = f.withdraw(caller, id)?;
    f.apply_transfer_outcome(caller, id, transfer_ok)
}

#[test]
fn register_returns_zero_then_no_status_then_overfunding_accepted() {
    let mut f = fresh();
    let id = f.create_a_funding(BENEFICIARY, 100).unwrap();
    assert_eq!(id, 0);
    assert_eq!(f.get_funding_status(0), None);
    assert_eq!(f.fund(DONOR, 40, 0), Ok(()));
    assert_eq!(f.get_funding_status(0), Some(40));
    // 40 < 100 at check time, so another 70 is accepted and recorded as-is,
    // over-funding the campaign to 110.
    assert_eq!(f.fund(DONOR, 70, 0), Ok(()));
    assert_eq!(f.get_funding_status(0), Some(110));
}

#[test]
fn fully_funded_campaign_withdrawn_by_beneficiary() {
    let mut f = fresh();
    let id = f.create_a_funding(BENEFICIARY, 100).unwrap();
    assert_eq!(f.fund(DONOR, 100, id), Ok(()));
    assert_eq!(f.get_funding_status(id), Some(100));
    assert!(f.current_balance() >= 100);
    let req = f.withdraw(BENEFICIARY, id).unwrap();
    assert_eq!(req, TransferRequest { destination: BENEFICIARY, amount: 100 });
    assert_eq!(f.apply_transfer_outcome(BENEFICIARY, id, true), Ok(100));
    assert_eq!(f.get_funding(id), None);
}

#[test]
fn premature_withdrawal_fails_not_fully_funded() {
    let mut f = fresh();
    let id = f.create_a_funding(BENEFICIARY, 50).unwrap();
    assert_eq!(f.withdraw(BENEFICIARY, id), Err(Error::NotFullyFunded));
}

#[test]
fn non_beneficiary_withdrawal_fails_and_changes_nothing() {
    let mut f = fresh();
    let id = f.create_a_funding(BENEFICIARY, 50).unwrap();
    assert_eq!(f.fund(DONOR, 50, id), Ok(()));
    assert_eq!(f.withdraw(OTHER, id), Err(Error::NotBeneficiary));
    assert_eq!(
        f.apply_transfer_outcome(OTHER, id, true),
        Err(Error::NotBeneficiary)
    );
    // State unchanged: the beneficiary can still withdraw afterward.
    assert_eq!(f.get_funding_status(id), Some(50));
    assert_eq!(run_withdraw(&mut f, BENEFICIARY, id, true), Ok(50));
}

#[test]
fn unknown_campaign_is_rejected_everywhere() {
    let mut f = fresh();
    assert_eq!(f.fund(DONOR, 10, 999), Err(Error::UnknownCampaign));
    assert_eq!(f.withdraw(DONOR, 999), Err(Error::UnknownCampaign));
    assert_eq!(
        f.apply_transfer_outcome(DONOR, 999, true),
        Err(Error::UnknownCampaign)
    );
}

#[test]
fn ids_strictly_increase_even_after_withdrawal() {
    let mut f = fresh();
    let a = f.create_a_funding(BENEFICIARY, 10).unwrap();
    assert_eq!(a, 0);
    assert_eq!(f.fund(DONOR, 10, a), Ok(()));
    assert_eq!(run_withdraw(&mut f, BENEFICIARY, a, true), Ok(10));
    // The withdrawn campaign's slot is retired for good; its id is never
    // reissued.
    let b = f.create_a_funding(BENEFICIARY, 20).unwrap();
    let c = f.create_a_funding(OTHER, 30).unwrap();
    assert_eq!(b, 1);
    assert_eq!(c, 2);
    assert_eq!(f.get_funding(a), None);
}

#[test]
fn overflowing_contribution_fails_and_leaves_entry_unchanged() {
    let mut f = fresh();
    let id = f.create_a_funding(BENEFICIARY, u128::MAX).unwrap();
    assert_eq!(f.fund(DONOR, u128::MAX - 1, id), Ok(()));
    assert_eq!(f.fund(DONOR, 2, id), Err(Error::ArithmeticOverflow));
    assert_eq!(f.get_funding_status(id), Some(u128::MAX - 1));
    assert_eq!(f.current_balance(), u128::MAX - 1);
}

#[test]
fn contribution_to_fully_funded_campaign_is_rejected() {
    let mut f = fresh();
    let id = f.create_a_funding(BENEFICIARY, 50).unwrap();
    assert_eq!(f.fund(DONOR, 50, id), Ok(()));
    assert_eq!(f.fund(DONOR, 1, id), Err(Error::AlreadyFullyFunded));
    assert_eq!(f.get_funding_status(id), Some(50));
}

#[test]
fn failed_transfer_aborts_withdrawal_and_keeps_it_retryable() {
    let mut f = fresh();
    let id = f.create_a_funding(BENEFICIARY, 75).unwrap();
    assert_eq!(f.fund(DONOR, 75, id), Ok(()));
    assert_eq!(
        f.apply_transfer_outcome(BENEFICIARY, id, false),
        Err(Error::TransferFailed)
    );
    // Nothing was mutated, so the beneficiary simply retries.
    assert_eq!(f.get_funding_status(id), Some(75));
    assert_eq!(f.current_balance(), 75);
    assert_eq!(f.apply_transfer_outcome(BENEFICIARY, id, true), Ok(75));
    assert_eq!(f.current_balance(), 0);
}

#[test]
fn accumulated_amounts_never_exceed_held_balance() {
    let mut f = fresh();
    let a = f.create_a_funding(BENEFICIARY, 100).unwrap();
    let b = f.create_a_funding(OTHER, 40).unwrap();
    let sum_live = |f: &Fundraiser| -> u128 {
        f.get_funding_status(a).unwrap_or(0) + f.get_funding_status(b).unwrap_or(0)
    };
    assert!(sum_live(&f) <= f.current_balance());
    assert_eq!(f.fund(DONOR, 60, a), Ok(()));
    assert!(sum_live(&f) <= f.current_balance());
    assert_eq!(f.fund(DONOR, 40, b), Ok(()));
    assert!(sum_live(&f) <= f.current_balance());
    assert_eq!(run_withdraw(&mut f, OTHER, b, true), Ok(40));
    assert!(sum_live(&f) <= f.current_balance());
    assert_eq!(f.fund(DONOR, 40, a), Ok(()));
    assert!(sum_live(&f) <= f.current_balance());
    assert_eq!(f.current_balance(), 100);
}

#[test]
fn withdrawn_campaign_stays_absent_for_every_operation() {
    let mut f = fresh();
    let id = f.create_a_funding(BENEFICIARY, 30).unwrap();
    assert_eq!(f.fund(DONOR, 30, id), Ok(()));
    assert_eq!(run_withdraw(&mut f, BENEFICIARY, id, true), Ok(30));
    assert_eq!(f.get_funding(id), None);
    assert_eq!(f.get_funding_status(id), None);
    assert_eq!(f.fund(DONOR, 1, id), Err(Error::UnknownCampaign));
    assert_eq!(f.withdraw(BENEFICIARY, id), Err(Error::UnknownCampaign));
    assert_eq!(
        f.apply_transfer_outcome(BENEFICIARY, id, true),
        Err(Error::UnknownCampaign)
    );
}

#[test]
fn zero_target_campaign_counts_as_fully_funded_from_the_start() {
    let mut f = fresh();
    let id = f.create_a_funding(BENEFICIARY, 0).unwrap();
    // Nothing accumulated, but the target (zero) is already met: no further
    // contribution is accepted, and the beneficiary may withdraw zero.
    assert_eq!(f.fund(DONOR, 1, id), Err(Error::AlreadyFullyFunded));
    assert_eq!(run_withdraw(&mut f, BENEFICIARY, id, true), Ok(0));
    assert_eq!(f.get_funding(id), None);
}

#[test]
fn over_funded_campaign_pays_out_everything_accumulated() {
    let mut f = fresh();
    let id = f.create_a_funding(BENEFICIARY, 100).unwrap();
    assert_eq!(f.fund(DONOR, 40, id), Ok(()));
    assert_eq!(f.fund(DONOR, 70, id), Ok(()));
    // 110 accumulated against a target of 100: the whole accumulated amount
    // is withdrawn, not just the target.
    assert_eq!(f.fund(DONOR, 1, id), Err(Error::AlreadyFullyFunded));
    assert_eq!(run_withdraw(&mut f, BENEFICIARY, id, true), Ok(110));
    assert_eq!(f.current_balance(), 0);
}

#[test]
fn registered_terms_are_stored_verbatim() {
    let mut f = fresh();
    let id = f.create_a_funding(BENEFICIARY, 123).unwrap();
    assert_eq!(
        f.get_funding(id),
        Some(Transaction { callee: BENEFICIARY, expected_value: 123 })
    );
}
