//! Data model: account identities, lifecycle states, schedule records and
//! the error taxonomy shared by every operation.
use vstd::prelude::*;

verus! {

/// An authenticated account identity, as handed in by the hosting execution
/// environment.  The escrow rules only ever compare identities for equality,
/// so an opaque numeric handle is all the model needs.
#[derive(Clone, Copy, PartialEq, Eq, Structural, Debug, Hash)]
pub struct AccountId(pub u64);

/// Lifecycle of a single schedule (milestone).  A schedule only ever moves
/// strictly forward through these states, one step at a time.
#[derive(Clone, Copy, PartialEq, Eq, Structural, Debug)]
pub enum ScheduleState {
    planned,
    funded,
    started,
    approved,
    released,
}

/// Lifecycle of the whole project.
#[derive(Clone, Copy, PartialEq, Eq, Structural, Debug)]
pub enum ProjectState {
    initiated,
    accepted,
    closed,
}

/// Storage namespace tags for the persisted schedule register.
#[derive(Clone, Copy, PartialEq, Eq, Structural, Debug)]
pub enum StorageKey {
    Schedules,
}

/// Why an operation was rejected.  Every failure aborts the call and leaves
/// the contract state untouched.
#[derive(Clone, Copy, PartialEq, Eq, Structural, Debug)]
pub enum EscrowError {
    /// The caller lacks the required role, or the client identity still
    /// equals the contract's own identity.
    Unauthorized,
    /// The project or the schedule is not in the state the transition needs.
    InvalidState,
    /// The attached payment fails the funding check, or the residual balance
    /// exceeds the close threshold.
    InsufficientFunds,
    /// The schedule id is not present.
    NotFound,
}

/// One milestone of project work with a fixed price, tracked through its own
/// lifecycle state.  Its id is its (1-based) position in the register.
#[derive(Debug)]
pub struct schedule {
    pub shortCode: String,
    pub description: String,
    pub value: u128,
    pub scheduleState: ScheduleState,
}

/// An outgoing value transfer for the hosting environment to dispatch,
/// fire-and-forget.
#[derive(Clone, Copy, PartialEq, Eq, Structural, Debug)]
pub struct Transfer {
    pub to: AccountId,
    pub amount: u128,
}

/// The text of a project state, as persisted and reported.
pub open spec fn text_of(p: ProjectState) -> Seq<char> {
    match p {
        ProjectState::initiated => "initiated"@,
        ProjectState::accepted => "accepted"@,
        ProjectState::closed => "closed"@,
    }
}

impl ProjectState {
    /// The state's name as text.
    pub fn to_text(&self) -> (r: String)
        ensures
            r@ == text_of(*self),
    {
        match self {
            ProjectState::initiated => "initiated".to_string(),
            ProjectState::accepted => "accepted".to_string(),
            ProjectState::closed => "closed".to_string(),
        }
    }
}

/// How far along its lifecycle a schedule state is: `planned` is 0 and each
/// legal transition adds exactly 1.
pub open spec fn schedule_rank(s: ScheduleState) -> int {
    match s {
        ScheduleState::planned => 0,
        ScheduleState::funded => 1,
        ScheduleState::started => 2,
        ScheduleState::approved => 3,
        ScheduleState::released => 4,
    }
}

/// The one legal successor of each non-terminal schedule state.
pub open spec fn advances(pre: ScheduleState, post: ScheduleState) -> bool {
    ||| (pre == ScheduleState::planned && post == ScheduleState::funded)
    ||| (pre == ScheduleState::funded && post == ScheduleState::started)
    ||| (pre == ScheduleState::started && post == ScheduleState::approved)
    ||| (pre == ScheduleState::approved && post == ScheduleState::released)
}

/// A schedule's state strictly advances: the legal transitions — the ones
/// the funding, starting, approving and releasing operations commit — are
/// exactly the moves of one step forward, so no transition skips a state,
/// moves backward, or leaves a released schedule.
pub proof fn lemma_schedule_state_strictly_advances(pre: ScheduleState, post: ScheduleState)
    ensures
        advances(pre, post) <==> schedule_rank(post) == schedule_rank(pre) + 1,
        advances(pre, post) ==> pre != ScheduleState::released,
{
}

} // verus!
