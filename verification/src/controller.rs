//! The controller's decision logic: what to do with each server reply.
//! Every network call ends in exactly one of two ways — an action handed to
//! the reducer, or a message surfaced to the user — and nothing else changes
//! local state. The asynchronous plumbing that performs the calls lives
//! outside this crate and feeds the replies in as plain values.

use std::collections::VecDeque;
use vstd::prelude::*;

use crate::records::{rid_eq, Investment, Record, RecordId};
use crate::state::InvestmentAction;

verus! {

/// What a finished call amounts to: one reducer action, or one user-visible
/// alert leaving local state exactly as it was.
pub enum Outcome {
    Dispatch(InvestmentAction),
    Alert(String),
}

/// Decides on the initial fetch's reply: a fetched list replaces the whole
/// collection; a failure is surfaced and nothing is dispatched.
pub fn init_outcome(response: Result<VecDeque<Investment>, String>) -> (r: Outcome)
    ensures
        response matches Ok(list) ==> r == Outcome::Dispatch(InvestmentAction::SetAll(list)),
        response matches Err(m) ==> r == Outcome::Alert(m),
{
    match response {
        Result::Ok(list) => Outcome::Dispatch(InvestmentAction::SetAll(list)),
        Result::Err(m) => Outcome::Alert(m),
    }
}

/// Decides on a create call's reply: the persisted record, as the server
/// returned it, is prepended; a failure is surfaced and nothing is
/// dispatched.
pub fn create_outcome(response: Result<Investment, String>) -> (r: Outcome)
    ensures
        response matches Ok(created) ==> r == Outcome::Dispatch(InvestmentAction::Add(created)),
        response matches Err(m) ==> r == Outcome::Alert(m),
{
    match response {
        Result::Ok(created) => Outcome::Dispatch(InvestmentAction::Add(created)),
        Result::Err(m) => Outcome::Alert(m),
    }
}

/// Decides on an update call's reply: the updated record replaces its
/// counterpart in place; a failure is surfaced and nothing is dispatched.
pub fn edit_outcome(response: Result<Investment, String>) -> (r: Outcome)
    ensures
        response matches Ok(updated) ==> r == Outcome::Dispatch(InvestmentAction::Edit(updated)),
        response matches Err(m) ==> r == Outcome::Alert(m),
{
    match response {
        Result::Ok(updated) => Outcome::Dispatch(InvestmentAction::Edit(updated)),
        Result::Err(m) => Outcome::Alert(m),
    }
}

/// Decides on a delete call's reply: only an acknowledgment naming the very
/// identifier that was sent confirms the removal; an acknowledgment for
/// anything else is reported without touching the collection, as is a
/// failure.
pub fn delete_outcome(requested: RecordId, response: Result<Record, String>) -> (r: Outcome)
    ensures
        (response matches Ok(ack) && rid_eq(ack.id, requested)) ==> r == Outcome::Dispatch(
            InvestmentAction::Delete(requested),
        ),
        (response matches Ok(ack) && !rid_eq(ack.id, requested)) ==> (r matches Outcome::Alert(m)
            && m@ == "Did not get a response"@),
        response matches Err(m) ==> r == Outcome::Alert(m),
{
    match response {
        Result::Ok(ack) => {
            if ack.id.eq_id(&requested) {
                Outcome::Dispatch(InvestmentAction::Delete(requested))
            } else {
                Outcome::Alert("Did not get a response".to_owned())
            }
        },
        Result::Err(m) => Outcome::Alert(m),
    }
}

/// Applies one outcome to the collection: a dispatched action steps the
/// reducer; an alert leaves the collection exactly as it was.
pub fn apply_outcome(state: crate::state::InvestmentState, outcome: Outcome) -> (r: (
    crate::state::InvestmentState,
    Option<String>,
))
    ensures
        outcome matches Outcome::Dispatch(action) ==> r.0.investments@ == crate::state::spec_reduce(
            state.investments@,
            action,
        ) && r.1 is None,
        outcome matches Outcome::Alert(m) ==> r.0.investments@ == state.investments@ && r.1
            == Option::Some(m),
{
    match outcome {
        Outcome::Dispatch(action) => (state.reduce(action), Option::None),
        Outcome::Alert(m) => (state, Option::Some(m)),
    }
}

} // verus!
