//! End-to-end tests of the escrow controller through its public operations.
#![allow(non_snake_case)]

use milestone_escrow::contract::Contract;
use milestone_escrow::fees::{netFunding, netPayout, MAX_DIFF};
use milestone_escrow::types::{AccountId, EscrowError, ProjectState, ScheduleState};

const OWNER: AccountId = AccountId(1);
const TREASURY: AccountId = AccountId(2);
const FREELANCER: AccountId = AccountId(3);
const CONTRACT: AccountId = AccountId(4);
const CLIENT: AccountId = AccountId(5);
const STRANGER: AccountId = AccountId(6);

fn fresh() -> Contract {
    Contract::new(OWNER, TREASURY, FREELANCER, CONTRACT)
}

/// A contract with one planned schedule of the given value, accepted by
/// CLIENT.
fn accepted_with_schedule(value: u128) -> Contract {
    let mut c = fresh();
    c.addSchedule(FREELANCER, "m1".to_string(), "first milestone".to_string(), value)
        .unwrap();
    c.acceptProject(CLIENT).unwrap();
    c
}

#[test]
fn construction_defaults() {
    let c = fresh();
    assert_eq!(c.getScheduleSupply(), 0);
    assert_eq!(c.getFreelancerAddress(), FREELANCER);
    assert_eq!(c.getClientAddress(), FREELANCER);
    assert_eq!(c.getProjectState(), "initiated");
    assert_eq!(c.clientFee, 200);
    assert_eq!(c.freelancerFee, 300);
}

#[test]
fn schedule_ids_are_sequential_in_call_order() {
    let mut c = fresh();
    for (i, code) in ["a", "b", "c"].iter().enumerate() {
        c.addSchedule(FREELANCER, code.to_string(), "work".to_string(), 100 + i as u128)
            .unwrap();
        assert_eq!(c.getScheduleSupply(), i as u64 + 1);
    }
    for id in 1..=3u64 {
        let s = c.getSchedule(id).unwrap();
        assert_eq!(s.value, 100 + (id as u128 - 1));
        assert_eq!(s.scheduleState, ScheduleState::planned);
    }
    assert_eq!(c.getSchedule(1).unwrap().shortCode, "a");
    assert_eq!(c.getSchedule(2).unwrap().shortCode, "b");
    assert_eq!(c.getSchedule(3).unwrap().shortCode, "c");
}

#[test]
fn add_schedule_guards() {
    let mut c = fresh();
    // only the freelancer may plan milestones
    assert_eq!(
        c.addSchedule(STRANGER, "x".to_string(), "y".to_string(), 1),
        Err(EscrowError::Unauthorized)
    );
    assert_eq!(c.getScheduleSupply(), 0);
    // and only while the project is still initiated
    c.acceptProject(CLIENT).unwrap();
    assert_eq!(
        c.addSchedule(FREELANCER, "x".to_string(), "y".to_string(), 1),
        Err(EscrowError::InvalidState)
    );
    assert_eq!(c.getScheduleSupply(), 0);
}

#[test]
fn accept_project_only_while_initiated() {
    let mut c = fresh();
    assert_eq!(c.acceptProject(CLIENT), Ok(()));
    assert_eq!(c.getClientAddress(), CLIENT);
    assert_eq!(c.getProjectState(), "accepted");
    // a second acceptance fails and changes nothing
    assert_eq!(c.acceptProject(STRANGER), Err(EscrowError::InvalidState));
    assert_eq!(c.getClientAddress(), CLIENT);
}

#[test]
fn accept_project_self_dealing_guard() {
    // deployed by the contract account itself: the client identity equals
    // the contract's own, so acceptance is refused
    let mut c = Contract::new(OWNER, TREASURY, CONTRACT, CONTRACT);
    assert_eq!(c.acceptProject(CLIENT), Err(EscrowError::Unauthorized));
    assert_eq!(c.getProjectState(), "initiated");
}

#[test]
fn fund_task_insufficient_below_exact_at_equality() {
    // client fee 200 bps: net of a 1000 deposit is 980
    let mut c = accepted_with_schedule(1000);
    assert_eq!(c.fundTask(CLIENT, 1, 1000), Err(EscrowError::InsufficientFunds));
    assert_eq!(c.getSchedule(1).unwrap().scheduleState, ScheduleState::planned);
    // net(1020) = 999 still falls short of 1000
    assert_eq!(c.fundTask(CLIENT, 1, 1020), Err(EscrowError::InsufficientFunds));
    // net(1021) = 1000 reaches the price exactly
    assert_eq!(c.fundTask(CLIENT, 1, 1021), Ok(()));
    assert_eq!(c.getSchedule(1).unwrap().scheduleState, ScheduleState::funded);
}

#[test]
fn fund_task_succeeds_at_equality() {
    let mut c = accepted_with_schedule(980);
    // net(1000) = 980 equals the price
    assert_eq!(c.fundTask(CLIENT, 1, 1000), Ok(()));
    assert_eq!(c.getSchedule(1).unwrap().scheduleState, ScheduleState::funded);
}

#[test]
fn fund_task_project_must_be_accepted() {
    let mut c = fresh();
    c.addSchedule(FREELANCER, "m".to_string(), "w".to_string(), 10).unwrap();
    assert_eq!(c.fundTask(CLIENT, 1, 1000), Err(EscrowError::InvalidState));
}

#[test]
fn schedule_state_advances_strictly() {
    let mut c = accepted_with_schedule(1000);
    // out-of-order calls fail with InvalidState and change nothing
    assert_eq!(c.startTask(FREELANCER, 1), Err(EscrowError::InvalidState));
    assert_eq!(c.approveTask(CLIENT, 1), Err(EscrowError::InvalidState));
    assert!(c.releaseFunds(FREELANCER, 1, 0, 0, 0).is_err());
    assert_eq!(c.getSchedule(1).unwrap().scheduleState, ScheduleState::planned);

    c.fundTask(CLIENT, 1, 2000).unwrap();
    assert_eq!(c.getSchedule(1).unwrap().scheduleState, ScheduleState::funded);
    // funding again, or skipping ahead, is refused
    assert_eq!(c.fundTask(CLIENT, 1, 2000), Err(EscrowError::InvalidState));
    assert_eq!(c.approveTask(CLIENT, 1), Err(EscrowError::InvalidState));

    c.startTask(FREELANCER, 1).unwrap();
    assert_eq!(c.getSchedule(1).unwrap().scheduleState, ScheduleState::started);
    assert_eq!(c.startTask(FREELANCER, 1), Err(EscrowError::InvalidState));

    c.approveTask(CLIENT, 1).unwrap();
    assert_eq!(c.getSchedule(1).unwrap().scheduleState, ScheduleState::approved);

    c.releaseFunds(FREELANCER, 1, 100, 0, 0).unwrap();
    assert_eq!(c.getSchedule(1).unwrap().scheduleState, ScheduleState::released);
    // released is terminal
    assert!(c.releaseFunds(FREELANCER, 1, 100, 0, 0).is_err());
}

#[test]
fn release_pays_net_payout_and_sweeps_spendable() {
    let mut c = accepted_with_schedule(1000);
    c.fundTask(CLIENT, 1, 2000).unwrap();
    c.startTask(FREELANCER, 1).unwrap();
    c.approveTask(CLIENT, 1).unwrap();
    // freelancer fee 300 bps: payout of a 1000 milestone is 970; the sweep
    // is everything held above the storage reserve: 5000 - 100 * 3 = 4700
    let (payout, sweep) = c.releaseFunds(FREELANCER, 1, 5000, 100, 3).unwrap();
    assert_eq!(payout.to, FREELANCER);
    assert_eq!(payout.amount, 970);
    assert_eq!(sweep.to, TREASURY);
    assert_eq!(sweep.amount, 4700);
    assert_eq!(c.getSchedule(1).unwrap().scheduleState, ScheduleState::released);
    // a second release of the same schedule is refused
    assert_eq!(
        c.releaseFunds(FREELANCER, 1, 5000, 100, 3),
        Err(EscrowError::InvalidState)
    );
}

#[test]
fn get_schedule_not_found() {
    let c = accepted_with_schedule(10);
    assert_eq!(c.getSchedule(0).err(), Some(EscrowError::NotFound));
    assert_eq!(c.getSchedule(2).err(), Some(EscrowError::NotFound));
    assert_eq!(c.getSchedule(99).err(), Some(EscrowError::NotFound));
    assert!(c.getSchedule(1).is_ok());
}

#[test]
fn role_guards_reject_other_parties() {
    let mut c = accepted_with_schedule(1000);
    // client-only operations from the freelancer or a stranger
    assert_eq!(c.fundTask(FREELANCER, 1, 2000), Err(EscrowError::Unauthorized));
    assert_eq!(c.fundTask(STRANGER, 1, 2000), Err(EscrowError::Unauthorized));
    c.fundTask(CLIENT, 1, 2000).unwrap();
    // freelancer-only operations from the client or a stranger
    assert_eq!(c.startTask(CLIENT, 1), Err(EscrowError::Unauthorized));
    assert_eq!(c.startTask(STRANGER, 1), Err(EscrowError::Unauthorized));
    c.startTask(FREELANCER, 1).unwrap();
    assert_eq!(c.approveTask(FREELANCER, 1), Err(EscrowError::Unauthorized));
    c.approveTask(CLIENT, 1).unwrap();
    assert_eq!(c.releaseFunds(CLIENT, 1, 0, 0, 0), Err(EscrowError::Unauthorized));
    assert_eq!(c.releaseFunds(STRANGER, 1, 0, 0, 0), Err(EscrowError::Unauthorized));
}

#[test]
fn set_treasury_owner_only() {
    let mut c = fresh();
    assert_eq!(c.set_treasury(STRANGER, STRANGER), Err(EscrowError::Unauthorized));
    assert_eq!(c.treasury_id, TREASURY);
    assert_eq!(c.set_treasury(OWNER, AccountId(9)), Ok(()));
    assert_eq!(c.treasury_id, AccountId(9));
}

#[test]
fn end_project_insufficient_while_above_dust() {
    // above the dust threshold the close is refused, in any project state
    let mut c = fresh();
    assert_eq!(
        c.endProject(FREELANCER, MAX_DIFF + 1, 0, 0),
        Err(EscrowError::InsufficientFunds)
    );
    assert_eq!(c.getProjectState(), "initiated");
    c.acceptProject(CLIENT).unwrap();
    assert_eq!(
        c.endProject(CLIENT, MAX_DIFF + 1, 0, 0),
        Err(EscrowError::InsufficientFunds)
    );
    assert_eq!(c.getProjectState(), "accepted");
}

#[test]
fn end_project_at_dust_threshold() {
    let mut c = fresh();
    c.acceptProject(CLIENT).unwrap();
    // exactly at the threshold the close goes through
    assert_eq!(c.endProject(CLIENT, MAX_DIFF, 0, 0), Ok(()));
    assert_eq!(c.getProjectState(), "closed");
}

#[test]
fn end_project_without_project_state_precondition() {
    // close is reachable from initiated, and even when already closed
    let mut c = fresh();
    assert_eq!(c.endProject(FREELANCER, 0, 0, 0), Ok(()));
    assert_eq!(c.getProjectState(), "closed");
    assert_eq!(c.endProject(FREELANCER, 0, 0, 0), Ok(()));
    assert_eq!(c.getProjectState(), "closed");
}

#[test]
fn end_project_party_only() {
    let mut c = fresh();
    c.acceptProject(CLIENT).unwrap();
    assert_eq!(c.endProject(STRANGER, 0, 0, 0), Err(EscrowError::Unauthorized));
    assert_eq!(c.endProject(OWNER, 0, 0, 0), Err(EscrowError::Unauthorized));
}

#[test]
fn net_funding_and_payout_formulas() {
    assert_eq!(netFunding(1000, 200), 980);
    assert_eq!(netFunding(1020, 200), 999);
    assert_eq!(netFunding(1021, 200), 1000);
    assert_eq!(netFunding(0, 200), 0);
    assert_eq!(netFunding(1000, 0), 1000);
    assert_eq!(netFunding(1000, 10000), 0);
    assert_eq!(netPayout(1000, 300), 970);
    assert_eq!(netPayout(1, 300), 0);
}

#[test]
fn spendable_balance_formula() {
    assert_eq!(Contract::getBalance(100, 3, 10), 70);
    assert_eq!(Contract::getBalance(100, 0, 10), 100);
    assert_eq!(Contract::getBalance(30, 3, 10), 0);
}

#[test]
fn project_state_to_text() {
    assert_eq!(ProjectState::initiated.to_text(), "initiated");
    assert_eq!(ProjectState::accepted.to_text(), "accepted");
    assert_eq!(ProjectState::closed.to_text(), "closed");
}
