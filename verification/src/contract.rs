//! The escrow controller: the single contract state and every public
//! operation on it.
//!
//! Each operation receives the authenticated caller identity (and, where it
//! matters, the held balance and storage figures) from the hosting
//! environment as plain values, consults the authorization guard and the
//! relevant state machine, and either commits its whole transition or
//! returns an error with the state untouched.
use vstd::prelude::*;

use crate::fees::{net_amount, netFunding, netPayout, spendable_of, MAX_DIFF};
use crate::types::{schedule, AccountId, EscrowError, ProjectState, ScheduleState, Transfer};

verus! {

/// The whole contract state: one project, one client, one freelancer, and
/// an ordered register of schedules.  Schedule ids are dense and sequential
/// starting at 1; the schedule with id `i` stands at index `i - 1`.
#[derive(Debug)]
pub struct Contract {
    /// Identity with exclusive rights to change the treasury identity.
    pub owner_id: AccountId,
    /// Identity receiving the fee sweep.
    pub treasury_id: AccountId,
    /// The contract's own identity in the hosting environment.
    pub contract_id: AccountId,
    /// Number of schedules ever created; source of new schedule ids.
    pub totalSchedules: u64,
    /// Fixed at creation to the deploying identity.
    pub freelancerAddress: AccountId,
    /// Assigned at acceptance; until then it holds the deploying identity.
    pub clientAddress: AccountId,
    pub projectState: ProjectState,
    /// The schedule with id `i` stands at index `i - 1`.
    pub scheduleRegister: Vec<schedule>,
    /// Basis-point fee on client funding.
    pub clientFee: u16,
    /// Basis-point fee on the freelancer payout.
    pub freelancerFee: u16,
}

impl Contract {
    /// Well-formedness: the register holds exactly the schedules ever
    /// created, and the fee rates are valid basis-point shares.
    pub open spec fn wf(self) -> bool {
        &&& self.scheduleRegister@.len() == self.totalSchedules
        &&& self.clientFee <= 10000
        &&& self.freelancerFee <= 10000
    }

    /// The self-dealing guard: the client identity still equals the
    /// contract's own identity, so no real client is defined.
    pub open spec fn client_is_contract(self) -> bool {
        self.clientAddress == self.contract_id
    }

    /// Whether `id` names a schedule: ids run densely from 1 to
    /// `totalSchedules`.
    pub open spec fn schedule_in_range(self, id: u64) -> bool {
        1 <= id && id <= self.totalSchedules
    }

    /// The schedule with the given in-range id.
    pub open spec fn schedule_at(self, id: u64) -> schedule {
        self.scheduleRegister@[id - 1]
    }

    /// Everything but the schedule register is the same in `post` as in
    /// `self`.
    pub open spec fn frame_except_schedules(self, post: Contract) -> bool {
        post == (Contract { scheduleRegister: post.scheduleRegister, ..self })
    }

    /// Guard outcome for an owner-only operation.
    pub open spec fn owner_check(self, caller: AccountId) -> Result<(), EscrowError> {
        if caller != self.owner_id {
            Err(EscrowError::Unauthorized)
        } else {
            Ok(())
        }
    }

    /// Guard outcome for a freelancer-only operation.
    pub open spec fn freelancer_check(self, caller: AccountId) -> Result<(), EscrowError> {
        if caller != self.freelancerAddress {
            Err(EscrowError::Unauthorized)
        } else {
            Ok(())
        }
    }

    /// Guard outcome for a client-only operation: fails while no real
    /// client is defined, or when the caller is not the client.
    pub open spec fn client_check(self, caller: AccountId) -> Result<(), EscrowError> {
        if self.client_is_contract() {
            Err(EscrowError::Unauthorized)
        } else if caller != self.clientAddress {
            Err(EscrowError::Unauthorized)
        } else {
            Ok(())
        }
    }

    /// Guard outcome for an operation open to either counterparty.
    pub open spec fn party_check(self, caller: AccountId) -> Result<(), EscrowError> {
        if self.client_is_contract() {
            Err(EscrowError::Unauthorized)
        } else if caller != self.clientAddress && caller != self.freelancerAddress {
            Err(EscrowError::Unauthorized)
        } else {
            Ok(())
        }
    }

    /// Outcome of requiring the project to be in `state`.
    pub open spec fn project_state_check(self, state: ProjectState) -> Result<(), EscrowError> {
        if self.projectState != state {
            Err(EscrowError::InvalidState)
        } else {
            Ok(())
        }
    }

    /// Outcome of requiring schedule `id` to exist and to be in `state`:
    /// an id outside `[1, totalSchedules]` is not found; a present schedule
    /// in any other state is an invalid transition.
    pub open spec fn schedule_state_check(self, state: ScheduleState, id: u64) -> Result<
        (),
        EscrowError,
    > {
        if !self.schedule_in_range(id) {
            Err(EscrowError::NotFound)
        } else if self.schedule_at(id).scheduleState != state {
            Err(EscrowError::InvalidState)
        } else {
            Ok(())
        }
    }

    /// Outcome of the funding sufficiency check: the net funding handed in
    /// must reach the schedule's price.
    pub open spec fn funding_check(self, net_funding: int, id: u64) -> Result<(), EscrowError> {
        if net_funding < self.schedule_at(id).value {
            Err(EscrowError::InsufficientFunds)
        } else {
            Ok(())
        }
    }

    /// Outcome of the residual-balance check for closing the project: the
    /// spendable balance must not exceed the dust threshold.
    pub open spec fn no_more_funds_check(self, spendable: int) -> Result<(), EscrowError> {
        if spendable > MAX_DIFF {
            Err(EscrowError::InsufficientFunds)
        } else {
            Ok(())
        }
    }

    /// Creates the contract state at deployment.  The deploying identity
    /// (`caller`) becomes the freelancer, and stands in for the client
    /// until acceptance; the fee rates take their fixed defaults.
    pub fn new(owner_id: AccountId, treasury_id: AccountId, caller: AccountId, contract_id:
        AccountId) -> (c: Contract)
        ensures
            c.wf(),
            c == (Contract {
                owner_id,
                treasury_id,
                contract_id,
                totalSchedules: 0,
                freelancerAddress: caller,
                clientAddress: caller,
                projectState: ProjectState::initiated,
                scheduleRegister: c.scheduleRegister,
                clientFee: 200,
                freelancerFee: 300,
            }),
            c.scheduleRegister@ == Seq::<schedule>::empty(),
    {
        let c = Contract {
            owner_id,
            treasury_id,
            contract_id,
            totalSchedules: 0,
            freelancerAddress: caller,
            clientAddress: caller,
            projectState: ProjectState::initiated,
            scheduleRegister: Vec::new(),
            clientFee: 200,
            freelancerFee: 300,
        };
        c
    }

    /// How many schedules exist.
    pub fn getScheduleSupply(&self) -> (r: u64)
        ensures
            r == self.totalSchedules,
    {
        self.totalSchedules
    }

    /// The freelancer's identity.
    pub fn getFreelancerAddress(&self) -> (r: AccountId)
        ensures
            r == self.freelancerAddress,
    {
        self.freelancerAddress
    }

    /// The client's identity.
    pub fn getClientAddress(&self) -> (r: AccountId)
        ensures
            r == self.clientAddress,
    {
        self.clientAddress
    }

    /// The project state's name as text.
    pub fn getProjectState(&self) -> (r: String)
        ensures
            r@ == crate::types::text_of(self.projectState),
    {
        self.projectState.to_text()
    }

    /// The spendable balance: the held balance minus the storage reserve,
    /// recomputed on demand from the live environment figures.
    pub fn getBalance(held_balance: u128, storage_usage: u64, storage_byte_cost: u128) -> (r:
        u128)
        requires
            storage_usage as int * storage_byte_cost as int <= held_balance as int,
        ensures
            r == spendable_of(held_balance as int, storage_usage as int, storage_byte_cost as int),
    {
        held_balance - (storage_usage as u128) * storage_byte_cost
    }

    /// A copy of the schedule with the given id, or `NotFound` when no such
    /// schedule exists.
    pub fn getSchedule(&self, _scheduleID: u64) -> (r: Result<schedule, EscrowError>)
        requires
            self.wf(),
        ensures
            match r {
                Ok(s) => self.schedule_in_range(_scheduleID) && s == self.schedule_at(_scheduleID),
                Err(e) => !self.schedule_in_range(_scheduleID) && e == EscrowError::NotFound,
            },
    {
        if _scheduleID < 1 || _scheduleID > self.totalSchedules {
            return Err(EscrowError::NotFound);
        }
        let n: usize = self.scheduleRegister.len();
        assert(_scheduleID - 1 < n);
        let idx: usize = (_scheduleID - 1) as usize;
        let s = &self.scheduleRegister[idx];
        Ok(schedule {
            shortCode: s.shortCode.clone(),
            description: s.description.clone(),
            value: s.value,
            scheduleState: s.scheduleState,
        })
    }
}

/// The first failed check wins: the outcome of `first`, unless it passed,
/// in which case the outcome of `next`.
pub open spec fn chain(first: Result<(), EscrowError>, next: Result<(), EscrowError>) -> Result<
    (),
    EscrowError,
> {
    match first {
        Err(e) => Err(e),
        Ok(_) => next,
    }
}

impl Contract {
    /// Combined guard outcome of `acceptProject`: the self-dealing guard,
    /// then the project must still be `initiated`.
    pub open spec fn accept_check(self) -> Result<(), EscrowError> {
        if self.client_is_contract() {
            Err(EscrowError::Unauthorized)
        } else {
            self.project_state_check(ProjectState::initiated)
        }
    }

    /// Combined guard outcome of `endProject`: either counterparty may
    /// close, but only once the spendable balance is down to dust.  The
    /// current project state is deliberately not consulted.
    pub open spec fn end_check(self, caller: AccountId, spendable: int) -> Result<
        (),
        EscrowError,
    > {
        chain(self.party_check(caller), self.no_more_funds_check(spendable))
    }

    /// Combined guard outcome of `addSchedule`: the project must still be
    /// `initiated`, and only the freelancer may plan milestones.
    pub open spec fn add_schedule_check(self, caller: AccountId) -> Result<(), EscrowError> {
        chain(self.project_state_check(ProjectState::initiated), self.freelancer_check(caller))
    }

    /// Combined guard outcome of `fundTask`, in check order: project
    /// accepted, schedule present and `planned`, net funding sufficient,
    /// caller is the client.
    pub open spec fn fund_check(self, caller: AccountId, id: u64, deposit: u128) -> Result<
        (),
        EscrowError,
    > {
        chain(
            self.project_state_check(ProjectState::accepted),
            chain(
                self.schedule_state_check(ScheduleState::planned, id),
                chain(
                    self.funding_check(net_amount(deposit as int, self.clientFee as int), id),
                    self.client_check(caller),
                ),
            ),
        )
    }

    /// Combined guard outcome of `startTask`: project accepted, schedule
    /// present and `funded`, caller is the freelancer.
    pub open spec fn start_check(self, caller: AccountId, id: u64) -> Result<(), EscrowError> {
        chain(
            self.project_state_check(ProjectState::accepted),
            chain(
                self.schedule_state_check(ScheduleState::funded, id),
                self.freelancer_check(caller),
            ),
        )
    }

    /// Combined guard outcome of `approveTask`: project accepted, schedule
    /// present and `started`, caller is the client.
    pub open spec fn approve_check(self, caller: AccountId, id: u64) -> Result<(), EscrowError> {
        chain(
            self.project_state_check(ProjectState::accepted),
            chain(
                self.schedule_state_check(ScheduleState::started, id),
                self.client_check(caller),
            ),
        )
    }

    /// Combined guard outcome of `releaseFunds`: project accepted, schedule
    /// present and `approved`, caller is the freelancer.
    pub open spec fn release_check(self, caller: AccountId, id: u64) -> Result<(), EscrowError> {
        chain(
            self.project_state_check(ProjectState::accepted),
            chain(
                self.schedule_state_check(ScheduleState::approved, id),
                self.freelancer_check(caller),
            ),
        )
    }

    /// Owner-only guard.
    fn assert_owner(&self, caller: AccountId) -> (r: Result<(), EscrowError>)
        ensures
            r == self.owner_check(caller),
    {
        if caller != self.owner_id {
            Err(EscrowError::Unauthorized)
        } else {
            Ok(())
        }
    }

    /// Freelancer-only guard.
    fn assert_freelancer(&self, caller: AccountId) -> (r: Result<(), EscrowError>)
        ensures
            r == self.freelancer_check(caller),
    {
        if caller != self.freelancerAddress {
            Err(EscrowError::Unauthorized)
        } else {
            Ok(())
        }
    }

    /// Client-only guard, including the self-dealing guard.
    fn assert_client(&self, caller: AccountId) -> (r: Result<(), EscrowError>)
        ensures
            r == self.client_check(caller),
    {
        if self.clientAddress == self.contract_id {
            Err(EscrowError::Unauthorized)
        } else if caller != self.clientAddress {
            Err(EscrowError::Unauthorized)
        } else {
            Ok(())
        }
    }

    /// Guard for operations open to either counterparty.
    fn assert_clientorfreelancer(&self, caller: AccountId) -> (r: Result<(), EscrowError>)
        ensures
            r == self.party_check(caller),
    {
        if self.clientAddress == self.contract_id {
            Err(EscrowError::Unauthorized)
        } else if caller != self.clientAddress && caller != self.freelancerAddress {
            Err(EscrowError::Unauthorized)
        } else {
            Ok(())
        }
    }

    /// Project-state guard.
    fn assert_project_state(&self, _state: ProjectState) -> (r: Result<(), EscrowError>)
        ensures
            r == self.project_state_check(_state),
    {
        if self.projectState != _state {
            Err(EscrowError::InvalidState)
        } else {
            Ok(())
        }
    }

    /// Schedule existence and state guard.
    fn assert_schedule_state(&self, _state: ScheduleState, _scheduleID: u64) -> (r: Result<
        (),
        EscrowError,
    >)
        requires
            self.wf(),
        ensures
            r == self.schedule_state_check(_state, _scheduleID),
    {
        if _scheduleID < 1 || _scheduleID > self.totalSchedules {
            return Err(EscrowError::NotFound);
        }
        let n: usize = self.scheduleRegister.len();
        assert(_scheduleID - 1 < n);
        let idx: usize = (_scheduleID - 1) as usize;
        if self.scheduleRegister[idx].scheduleState != _state {
            return Err(EscrowError::InvalidState);
        }
        Ok(())
    }

    /// Funding sufficiency guard.
    fn assert_ample_funding(&self, _funding: u128, _scheduleID: u64) -> (r: Result<
        (),
        EscrowError,
    >)
        requires
            self.wf(),
            self.schedule_in_range(_scheduleID),
        ensures
            r == self.funding_check(_funding as int, _scheduleID),
    {
        let n: usize = self.scheduleRegister.len();
        assert(_scheduleID - 1 < n);
        let idx: usize = (_scheduleID - 1) as usize;
        if _funding < self.scheduleRegister[idx].value {
            Err(EscrowError::InsufficientFunds)
        } else {
            Ok(())
        }
    }

    /// Residual-balance guard for closing the project.
    fn assert_nomore_funds(&self, held_balance: u128, storage_usage: u64, storage_byte_cost:
        u128) -> (r: Result<(), EscrowError>)
        requires
            storage_usage as int * storage_byte_cost as int <= held_balance as int,
        ensures
            r == self.no_more_funds_check(
                spendable_of(held_balance as int, storage_usage as int, storage_byte_cost as int),
            ),
    {
        let spendable = Contract::getBalance(held_balance, storage_usage, storage_byte_cost);
        if spendable > MAX_DIFF {
            Err(EscrowError::InsufficientFunds)
        } else {
            Ok(())
        }
    }

    /// Changes the treasury identity.  Owner only; everything else is left
    /// untouched, and nothing changes on failure.
    pub fn set_treasury(&mut self, caller: AccountId, treasury_id: AccountId) -> (r: Result<
        (),
        EscrowError,
    >)
        ensures
            r == old(self).owner_check(caller),
            r is Ok ==> *final(self) == (Contract { treasury_id, ..*old(self) }),
            r is Err ==> *final(self) == *old(self),
    {
        self.assert_owner(caller)?;
        self.treasury_id = treasury_id;
        Ok(())
    }

    /// Accepts the project: the caller becomes the client and the project
    /// moves `initiated` → `accepted`.  Fails with `Unauthorized` while the
    /// client identity equals the contract's own, and with `InvalidState`
    /// unless the project is still `initiated`; nothing changes on failure.
    pub fn acceptProject(&mut self, caller: AccountId) -> (r: Result<(), EscrowError>)
        ensures
            r == old(self).accept_check(),
            r is Ok ==> *final(self) == (Contract {
                clientAddress: caller,
                projectState: ProjectState::accepted,
                ..*old(self)
            }),
            r is Err ==> *final(self) == *old(self),
    {
        if self.clientAddress == self.contract_id {
            return Err(EscrowError::Unauthorized);
        }
        self.assert_project_state(ProjectState::initiated)?;
        self.clientAddress = caller;
        self.projectState = ProjectState::accepted;
        Ok(())
    }

    /// Closes the project, from any project state.  Either counterparty
    /// may close, and only while the spendable balance — computed from the
    /// live balance and storage figures — is down to the dust threshold;
    /// nothing changes on failure.
    pub fn endProject(&mut self, caller: AccountId, held_balance: u128, storage_usage: u64,
        storage_byte_cost: u128) -> (r: Result<(), EscrowError>)
        requires
            storage_usage as int * storage_byte_cost as int <= held_balance as int,
        ensures
            r == old(self).end_check(
                caller,
                spendable_of(held_balance as int, storage_usage as int, storage_byte_cost as int),
            ),
            r is Ok ==> *final(self) == (Contract {
                projectState: ProjectState::closed,
                ..*old(self)
            }),
            r is Err ==> *final(self) == *old(self),
    {
        self.assert_clientorfreelancer(caller)?;
        self.assert_nomore_funds(held_balance, storage_usage, storage_byte_cost)?;
        self.projectState = ProjectState::closed;
        Ok(())
    }

    /// Plans a new milestone.  Freelancer only, while the project is still
    /// `initiated`.  The new schedule starts `planned` and takes the next
    /// sequential id, which equals the new schedule count; nothing changes
    /// on failure.
    pub fn addSchedule(&mut self, caller: AccountId, _shortCode: String, _description: String,
        _value: u128) -> (r: Result<(), EscrowError>)
        requires
            old(self).wf(),
            old(self).totalSchedules < u64::MAX,
        ensures
            final(self).wf(),
            r == old(self).add_schedule_check(caller),
            r is Ok ==> *final(self) == (Contract {
                totalSchedules: (old(self).totalSchedules + 1) as u64,
                scheduleRegister: final(self).scheduleRegister,
                ..*old(self)
            }),
            r is Ok ==> final(self).scheduleRegister@ == old(self).scheduleRegister@.push(
                schedule {
                    shortCode: _shortCode,
                    description: _description,
                    value: _value,
                    scheduleState: ScheduleState::planned,
                },
            ),
            r is Err ==> *final(self) == *old(self),
    {
        self.assert_project_state(ProjectState::initiated)?;
        self.assert_freelancer(caller)?;
        self.totalSchedules = self.totalSchedules + 1;
        self.scheduleRegister.push(
            schedule {
                shortCode: _shortCode,
                description: _description,
                value: _value,
                scheduleState: ScheduleState::planned,
            },
        );
        Ok(())
    }

    /// Funds a planned milestone.  The project must be `accepted`, the
    /// schedule `planned`, the net funding left of the attached payment
    /// after the client-side fee must reach the schedule's price, and the
    /// caller must be the client.  On success the schedule moves to
    /// `funded`; nothing changes on failure.
    pub fn fundTask(&mut self, caller: AccountId, _scheduleID: u64, attached_deposit: u128) -> (r:
        Result<(), EscrowError>)
        requires
            old(self).wf(),
            attached_deposit <= u128::MAX / 10000,
        ensures
            final(self).wf(),
            r == old(self).fund_check(caller, _scheduleID, attached_deposit),
            r is Ok ==> old(self).frame_except_schedules(*final(self)) && final(self).scheduleRegister@ == old(self).scheduleRegister@.update(
                _scheduleID - 1,
                schedule {
                    scheduleState: ScheduleState::funded,
                    ..old(self).schedule_at(_scheduleID)
                },
            ),
            r is Err ==> *final(self) == *old(self),
    {
        self.assert_project_state(ProjectState::accepted)?;
        self.assert_schedule_state(ScheduleState::planned, _scheduleID)?;
        let net = netFunding(attached_deposit, self.clientFee);
        self.assert_ample_funding(net, _scheduleID)?;
        self.assert_client(caller)?;
        let n: usize = self.scheduleRegister.len();
        assert(_scheduleID - 1 < n);
        let idx: usize = (_scheduleID - 1) as usize;
        let elem = &mut self.scheduleRegister[idx];
        elem.scheduleState = ScheduleState::funded;
        Ok(())
    }

    /// Starts a funded milestone.  The project must be `accepted`, the
    /// schedule `funded`, and the caller must be the freelancer.  On
    /// success the schedule moves to `started`; nothing changes on failure.
    pub fn startTask(&mut self, caller: AccountId, _scheduleID: u64) -> (r: Result<
        (),
        EscrowError,
    >)
        requires
            old(self).wf(),
        ensures
            final(self).wf(),
            r == old(self).start_check(caller, _scheduleID),
            r is Ok ==> old(self).frame_except_schedules(*final(self)) && final(self).scheduleRegister@ == old(self).scheduleRegister@.update(
                _scheduleID - 1,
                schedule {
                    scheduleState: ScheduleState::started,
                    ..old(self).schedule_at(_scheduleID)
                },
            ),
            r is Err ==> *final(self) == *old(self),
    {
        self.assert_project_state(ProjectState::accepted)?;
        self.assert_schedule_state(ScheduleState::funded, _scheduleID)?;
        self.assert_freelancer(caller)?;
        let n: usize = self.scheduleRegister.len();
        assert(_scheduleID - 1 < n);
        let idx: usize = (_scheduleID - 1) as usize;
        let elem = &mut self.scheduleRegister[idx];
        elem.scheduleState = ScheduleState::started;
        Ok(())
    }

    /// Approves a started milestone.  The project must be `accepted`, the
    /// schedule `started`, and the caller must be the client.  On success
    /// the schedule moves to `approved`; nothing changes on failure.
    pub fn approveTask(&mut self, caller: AccountId, _scheduleID: u64) -> (r: Result<
        (),
        EscrowError,
    >)
        requires
            old(self).wf(),
        ensures
            final(self).wf(),
            r == old(self).approve_check(caller, _scheduleID),
            r is Ok ==> old(self).frame_except_schedules(*final(self)) && final(self).scheduleRegister@ == old(self).scheduleRegister@.update(
                _scheduleID - 1,
                schedule {
                    scheduleState: ScheduleState::approved,
                    ..old(self).schedule_at(_scheduleID)
                },
            ),
            r is Err ==> *final(self) == *old(self),
    {
        self.assert_project_state(ProjectState::accepted)?;
        self.assert_schedule_state(ScheduleState::started, _scheduleID)?;
        self.assert_client(caller)?;
        let n: usize = self.scheduleRegister.len();
        assert(_scheduleID - 1 < n);
        let idx: usize = (_scheduleID - 1) as usize;
        let elem = &mut self.scheduleRegister[idx];
        elem.scheduleState = ScheduleState::approved;
        Ok(())
    }

    /// Releases an approved milestone.  The project must be `accepted`,
    /// the schedule `approved`, and the caller must be the freelancer.  On
    /// success the schedule moves to `released` and two transfers are
    /// returned for the environment to dispatch: the net payout after the
    /// freelancer-side fee to the freelancer, and a sweep of the whole
    /// spendable balance to the treasury.  Nothing changes on failure, and
    /// the state moves whatever later becomes of the transfers.
    pub fn releaseFunds(&mut self, caller: AccountId, _scheduleID: u64, held_balance: u128,
        storage_usage: u64, storage_byte_cost: u128) -> (r: Result<(Transfer, Transfer),
        EscrowError>)
        requires
            old(self).wf(),
            storage_usage as int * storage_byte_cost as int <= held_balance as int,
            old(self).schedule_in_range(_scheduleID) ==> old(self).schedule_at(
                _scheduleID,
            ).value <= u128::MAX / 10000,
        ensures
            final(self).wf(),
            r is Ok <==> old(self).release_check(caller, _scheduleID) is Ok,
            r matches Err(e) ==> old(self).release_check(caller, _scheduleID) == Err::<
                (),
                EscrowError,
            >(e) && *final(self) == *old(self),
            r matches Ok(t) ==> {
                &&& t.0.to == old(self).freelancerAddress
                &&& t.0.amount == net_amount(
                    old(self).schedule_at(_scheduleID).value as int,
                    old(self).freelancerFee as int,
                )
                &&& t.1.to == old(self).treasury_id
                &&& t.1.amount == spendable_of(
                    held_balance as int,
                    storage_usage as int,
                    storage_byte_cost as int,
                )
                &&& old(self).frame_except_schedules(*final(self))
                &&& final(self).scheduleRegister@ == old(self).scheduleRegister@.update(
                    _scheduleID - 1,
                    schedule {
                        scheduleState: ScheduleState::released,
                        ..old(self).schedule_at(_scheduleID)
                    },
                )
            },
    {
        self.assert_project_state(ProjectState::accepted)?;
        self.assert_schedule_state(ScheduleState::approved, _scheduleID)?;
        self.assert_freelancer(caller)?;
        let n: usize = self.scheduleRegister.len();
        assert(_scheduleID - 1 < n);
        let idx: usize = (_scheduleID - 1) as usize;
        let value = self.scheduleRegister[idx].value;
        let payout = Transfer {
            to: self.freelancerAddress,
            amount: netPayout(value, self.freelancerFee),
        };
        let sweep = Transfer {
            to: self.treasury_id,
            amount: Contract::getBalance(held_balance, storage_usage, storage_byte_cost),
        };
        let elem = &mut self.scheduleRegister[idx];
        elem.scheduleState = ScheduleState::released;
        Ok((payout, sweep))
    }
}

/// Schedule ids are assigned 1, 2, 3, … in creation order: a successful
/// `addSchedule` keeps the register dense, gives the new schedule the id
/// equal to the new schedule count, and leaves every earlier schedule under
/// its id.
pub proof fn lemma_schedule_ids_sequential(pre: Contract, post: Contract, sc: String, desc:
    String, value: u128)
    requires
        pre.wf(),
        post.totalSchedules == pre.totalSchedules + 1,
        post.scheduleRegister@ == pre.scheduleRegister@.push(
            schedule {
                shortCode: sc,
                description: desc,
                value: value,
                scheduleState: ScheduleState::planned,
            },
        ),
    ensures
        post.scheduleRegister@.len() == post.totalSchedules,
        post.schedule_at(post.totalSchedules) == (schedule {
            shortCode: sc,
            description: desc,
            value: value,
            scheduleState: ScheduleState::planned,
        }),
        forall|id: u64| pre.schedule_in_range(id) ==> post.schedule_at(id) == pre.schedule_at(id),
{
}

/// `acceptProject` succeeds at most once: after a successful acceptance by
/// a caller other than the contract itself, a second acceptance attempt is
/// rejected with `InvalidState`.
pub proof fn lemma_accept_project_once(pre: Contract, caller: AccountId)
    requires
        pre.accept_check() is Ok,
        caller != pre.contract_id,
    ensures
        (Contract {
            clientAddress: caller,
            projectState: ProjectState::accepted,
            ..pre
        }).accept_check() == Err::<(), EscrowError>(EscrowError::InvalidState),
{
}

/// `releaseFunds` releases a schedule exactly once: after a successful
/// release, a second release of the same schedule is rejected with
/// `InvalidState`, whoever calls it.
pub proof fn lemma_release_funds_once(pre: Contract, post: Contract, caller: AccountId, caller2:
    AccountId, id: u64)
    requires
        pre.wf(),
        pre.release_check(caller, id) is Ok,
        pre.frame_except_schedules(post),
        post.scheduleRegister@ == pre.scheduleRegister@.update(
            id - 1,
            schedule { scheduleState: ScheduleState::released, ..pre.schedule_at(id) },
        ),
    ensures
        post.release_check(caller2, id) == Err::<(), EscrowError>(EscrowError::InvalidState),
{
}

/// Funding fails with `InsufficientFunds` exactly when the net funding left
/// of the attached payment falls short of the schedule's price, once the
/// project and schedule gates pass; at equality and above, with the client
/// calling, it succeeds.
pub proof fn lemma_fund_insufficient_iff_below_price(c: Contract, caller: AccountId, id: u64,
    deposit: u128)
    requires
        c.project_state_check(ProjectState::accepted) is Ok,
        c.schedule_state_check(ScheduleState::planned, id) is Ok,
    ensures
        c.fund_check(caller, id, deposit) == Err::<(), EscrowError>(
            EscrowError::InsufficientFunds,
        ) <==> net_amount(deposit as int, c.clientFee as int) < c.schedule_at(id).value,
        net_amount(deposit as int, c.clientFee as int) >= c.schedule_at(id).value && c
            .client_check(caller) is Ok ==> c.fund_check(caller, id, deposit) is Ok,
{
}

/// Owner-only, client-only and freelancer-only operations reject every
/// other caller: once the gates before the role check pass, a caller the
/// guard refuses is turned away with `Unauthorized`.
pub proof fn lemma_role_guards_reject_other_callers(c: Contract, caller: AccountId, id: u64,
    deposit: u128)
    ensures
        caller != c.owner_id ==> c.owner_check(caller) == Err::<(), EscrowError>(
            EscrowError::Unauthorized,
        ),
        c.project_state_check(ProjectState::initiated) is Ok && caller != c.freelancerAddress
            ==> c.add_schedule_check(caller) == Err::<(), EscrowError>(EscrowError::Unauthorized),
        c.project_state_check(ProjectState::accepted) is Ok && c.schedule_state_check(
            ScheduleState::planned,
            id,
        ) is Ok && net_amount(deposit as int, c.clientFee as int) >= c.schedule_at(id).value && c
            .client_check(caller) is Err ==> c.fund_check(caller, id, deposit) == Err::<
            (),
            EscrowError,
        >(EscrowError::Unauthorized),
        c.project_state_check(ProjectState::accepted) is Ok && c.schedule_state_check(
            ScheduleState::funded,
            id,
        ) is Ok && caller != c.freelancerAddress ==> c.start_check(caller, id) == Err::<
            (),
            EscrowError,
        >(EscrowError::Unauthorized),
        c.project_state_check(ProjectState::accepted) is Ok && c.schedule_state_check(
            ScheduleState::started,
            id,
        ) is Ok && c.client_check(caller) is Err ==> c.approve_check(caller, id) == Err::<
            (),
            EscrowError,
        >(EscrowError::Unauthorized),
        c.project_state_check(ProjectState::accepted) is Ok && c.schedule_state_check(
            ScheduleState::approved,
            id,
        ) is Ok && caller != c.freelancerAddress ==> c.release_check(caller, id) == Err::<
            (),
            EscrowError,
        >(EscrowError::Unauthorized),
{
}

/// Whether `endProject` is allowed never depends on the project state: with
/// the same caller and the same spendable balance, its guard decides the
/// same way in every project state.
pub proof fn lemma_end_check_ignores_project_state(c: Contract, caller: AccountId, spendable:
    int, p: ProjectState)
    ensures
        (Contract { projectState: p, ..c }).end_check(caller, spendable) == c.end_check(
            caller,
            spendable,
        ),
{
}

} // verus!
