//! A two-party escrow for project work organized into milestones
//! ("schedules").  A freelancer plans milestones, a client funds them one at
//! a time, and a platform treasury collects a basis-point fee on each side of
//! the flow.  The core is the milestone state machine: who may move a
//! schedule or the whole project between states, how funds are checked and
//! split, and how the operating balance is protected.
//!
//! The hosting environment supplies the authenticated caller identity, the
//! held balance and storage figures, and carries out outgoing transfers; the
//! library receives those as plain values and returns the transfers to
//! dispatch, so every rule is stated and proved here.
#![allow(non_snake_case)]
#![allow(non_camel_case_types)]

pub mod contract;
pub mod fees;
pub mod types;
