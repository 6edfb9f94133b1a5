//! The approval state machine.
//!
//! A transition of a ticket takes two steps around the store. First the
//! ticket's state is read (`statement::select_state`) and `decide` rules
//! on it: a ticket that is missing or already in a terminal state is
//! turned down, any other gets the statement that writes its new state.
//! Then that statement is run and `confirm` turns its outcome into the
//! answer for the caller. Whoever holds the connection keeps it locked from
//! the read to the write, so that nothing comes between the two.

use vstd::prelude::*;
use vstd::string::*;
use crate::state::{
    is_active_label, is_terminal, is_terminal_label, labels_differ, APPROVED, REJECTED,
};
use crate::statement::{Statement, StatementView};

verus! {

/// Opens the statement that writes a ticket's state, up to the new label.
pub const UPDATE_STATE_TO: &'static str = "UPDATE tickets SET state = '";

/// Closes that statement: `updated_at` becomes the current time, and only
/// the ticket whose id is bound is written.
pub const AND_TOUCH_WHERE_ID: &'static str = "', updated_at = datetime('now') WHERE id = ?";

/// What an operator asks for a ticket.
#[derive(Debug, Clone, Copy, PartialEq, Eq, Structural)]
pub enum Transition {
    Approve,
    Reject,
}

/// Why a transition did not go through.
#[derive(Debug, Clone)]
pub enum WorkflowError {
    /// No ticket has this id.
    NotFound { id: String },
    /// The ticket is in a terminal state already.
    Conflict { id: String, state: String },
    /// The store could not write the new state.
    Store { message: String },
}

/// What a `WorkflowError` holds.
pub enum WorkflowErrorView {
    NotFound { id: Seq<char> },
    Conflict { id: Seq<char>, state: Seq<char> },
    Store { message: Seq<char> },
}

impl View for WorkflowError {
    type V = WorkflowErrorView;

    open spec fn view(&self) -> WorkflowErrorView {
        match self {
            WorkflowError::NotFound { id } => WorkflowErrorView::NotFound { id: id@ },
            WorkflowError::Conflict { id, state } => WorkflowErrorView::Conflict {
                id: id@,
                state: state@,
            },
            WorkflowError::Store { message } => WorkflowErrorView::Store { message: message@ },
        }
    }
}

impl Transition {
    /// The state that this transition moves a ticket to.
    pub open spec fn target(self) -> Seq<char> {
        match self {
            Transition::Approve => APPROVED@,
            Transition::Reject => REJECTED@,
        }
    }

    /// How the confirmation calls a ticket after this transition.
    pub open spec fn participle(self) -> Seq<char> {
        match self {
            Transition::Approve => "approved"@,
            Transition::Reject => "rejected"@,
        }
    }

    /// The state that this transition moves a ticket to.
    pub fn target_state(self) -> (label: &'static str)
        ensures
            label@ == self.target(),
    {
        match self {
            Transition::Approve => APPROVED,
            Transition::Reject => REJECTED,
        }
    }
}

impl WorkflowErrorView {
    /// The message of an error, as the caller reads it.
    pub open spec fn message(self) -> Seq<char> {
        match self {
            WorkflowErrorView::NotFound { id } => "Ticket "@ + id + " not found"@,
            WorkflowErrorView::Conflict { id, state } => "Ticket "@ + id
                + " is already in terminal state: "@ + state,
            WorkflowErrorView::Store { message } => message,
        }
    }
}

impl WorkflowError {
    /// The message of this error. A conflict names the state that the
    /// ticket is in; a failure of the store is reported in the store's
    /// own words.
    pub fn message(&self) -> (text: String)
        ensures
            text@ == self@.message(),
    {
        match self {
            WorkflowError::NotFound { id } => {
                let mut text = String::from_str("Ticket ");
                text.append(id.as_str());
                text.append(" not found");
                text
            },
            WorkflowError::Conflict { id, state } => {
                let mut text = String::from_str("Ticket ");
                text.append(id.as_str());
                text.append(" is already in terminal state: ");
                text.append(state.as_str());
                text
            },
            WorkflowError::Store { message } => message.clone(),
        }
    }
}

/// The statement that moves the ticket with the given id to the
/// transition's state and refreshes `updated_at`.
pub open spec fn update_to(transition: Transition, id: Seq<char>) -> StatementView {
    StatementView {
        sql: UPDATE_STATE_TO@ + transition.target() + AND_TOUCH_WHERE_ID@,
        params: seq![id],
    }
}

/// What a request comes to, given the state that was read for the ticket
/// (`None` where no state could be read): the statement to run, or the
/// reason why nothing is written.
pub open spec fn decision(transition: Transition, id: Seq<char>, current: Option<Seq<char>>) -> Result<
    StatementView,
    WorkflowErrorView,
> {
    match current {
        None => Err(WorkflowErrorView::NotFound { id }),
        Some(state) => if is_terminal_label(state) {
            Err(WorkflowErrorView::Conflict { id, state })
        } else {
            Ok(update_to(transition, id))
        },
    }
}

/// What the caller is told once the statement of a transition was run: the
/// confirmation, or the store's error.
pub open spec fn confirmation(transition: Transition, id: Seq<char>, outcome: Result<usize, Seq<char>>)
    -> Result<Seq<char>, WorkflowErrorView> {
    match outcome {
        Ok(_) => Ok("Ticket "@ + id + " "@ + transition.participle()),
        Err(message) => Err(WorkflowErrorView::Store { message }),
    }
}

/// The state of a ticket once a request on it was decided and what was
/// decided was carried out: a terminal state stays, any other gives way to
/// the transition's.
pub open spec fn state_after(transition: Transition, current: Seq<char>) -> Seq<char> {
    if is_terminal_label(current) {
        current
    } else {
        transition.target()
    }
}

/// The state that was read, as the text it holds.
pub open spec fn state_read(current: Option<&str>) -> Option<Seq<char>> {
    match current {
        Some(state) => Some(state@),
        None => None,
    }
}

/// What a decided request holds.
pub open spec fn step_view(step: Result<Statement, WorkflowError>) -> Result<
    StatementView,
    WorkflowErrorView,
> {
    match step {
        Ok(statement) => Ok(statement@),
        Err(error) => Err(error@),
    }
}

/// What the outcome of a statement holds.
pub open spec fn outcome_view(outcome: Result<usize, String>) -> Result<usize, Seq<char>> {
    match outcome {
        Ok(changed) => Ok(changed),
        Err(message) => Err(message@),
    }
}

/// What an answer for the caller holds.
pub open spec fn answer_view(answer: Result<String, WorkflowError>) -> Result<
    Seq<char>,
    WorkflowErrorView,
> {
    match answer {
        Ok(text) => Ok(text@),
        Err(error) => Err(error@),
    }
}

/// Decides a request for a transition. `current` is the state that was
/// read for the ticket, `None` where none could be read. The comment is
/// taken and not kept: it changes nothing.
pub fn decide(transition: Transition, ticket_id: &str, current: Option<&str>, comment: Option<&str>) -> (step:
    Result<Statement, WorkflowError>)
    ensures
        step_view(step) == decision(transition, ticket_id@, state_read(current)),
{
    let _ = comment;
    match current {
        None => Err(WorkflowError::NotFound { id: String::from_str(ticket_id) }),
        Some(state) => {
            if is_terminal(state) {
                Err(
                    WorkflowError::Conflict {
                        id: String::from_str(ticket_id),
                        state: String::from_str(state),
                    },
                )
            } else {
                let mut sql = String::from_str(UPDATE_STATE_TO);
                sql.append(transition.target_state());
                sql.append(AND_TOUCH_WHERE_ID);
                let mut params: Vec<String> = Vec::new();
                params.push(String::from_str(ticket_id));
                assert(params@.map_values(|p: String| p@) =~= seq![ticket_id@]);
                Ok(Statement { sql, params })
            }
        },
    }
}

/// Decides an approval: `decide` with `Transition::Approve`.
pub fn approve(ticket_id: &str, current: Option<&str>, comment: Option<&str>) -> (step: Result<
    Statement,
    WorkflowError,
>)
    ensures
        step_view(step) == decision(Transition::Approve, ticket_id@, state_read(current)),
{
    decide(Transition::Approve, ticket_id, current, comment)
}

/// Decides a rejection: `decide` with `Transition::Reject`.
pub fn reject(ticket_id: &str, current: Option<&str>, comment: Option<&str>) -> (step: Result<
    Statement,
    WorkflowError,
>)
    ensures
        step_view(step) == decision(Transition::Reject, ticket_id@, state_read(current)),
{
    decide(Transition::Reject, ticket_id, current, comment)
}

/// Turns the outcome of the statement of a transition into the answer for
/// the caller. How many rows the statement changed does not matter.
pub fn confirm(transition: Transition, ticket_id: &str, outcome: Result<usize, String>) -> (answer: Result<
    String,
    WorkflowError,
>)
    ensures
        answer_view(answer) == confirmation(transition, ticket_id@, outcome_view(outcome)),
{
    match outcome {
        Ok(_) => {
            let mut text = String::from_str("Ticket ");
            text.append(ticket_id);
            text.append(" ");
            match transition {
                Transition::Approve => text.append("approved"),
                Transition::Reject => text.append("rejected"),
            }
            Ok(text)
        },
        Err(message) => Err(WorkflowError::Store { message }),
    }
}

/// A ticket in a terminal state is turned down whichever transition is
/// asked for: the decision is a conflict that names the state, no statement
/// is issued, and so the stored row stays as it is.
pub proof fn terminal_ticket_is_turned_down(transition: Transition, id: Seq<char>, state: Seq<char>)
    requires
        is_terminal_label(state),
    ensures
        decision(transition, id, Some(state)) == Err::<StatementView, WorkflowErrorView>(
            WorkflowErrorView::Conflict { id, state },
        ),
        (WorkflowErrorView::Conflict { id, state }).message() == "Ticket "@ + id
            + " is already in terminal state: "@ + state,
        state_after(transition, state) == state,
{
}

/// A ticket that needs attention can be approved and rejected: the decision
/// is the statement that writes the transition's state for this ticket and
/// no other.
pub proof fn active_ticket_is_moved(transition: Transition, id: Seq<char>, state: Seq<char>)
    requires
        is_active_label(state),
    ensures
        decision(transition, id, Some(state)) == Ok::<StatementView, WorkflowErrorView>(
            update_to(transition, id),
        ),
        state_after(transition, state) == transition.target(),
{
    labels_differ();
}

/// Whatever state a ticket was in, after one decided request it is in a
/// terminal state and out of the listing of pending tickets.
pub proof fn decided_ticket_is_settled(transition: Transition, state: Seq<char>)
    ensures
        is_terminal_label(state_after(transition, state)),
        !is_active_label(state_after(transition, state)),
{
    labels_differ();
}

/// A second request on a ticket never goes through: whichever two
/// transitions were asked for, the second decision is a conflict that names
/// the state which the first left, no statement is issued, and the state
/// stays.
pub proof fn second_request_is_turned_down(
    first: Transition,
    second: Transition,
    id: Seq<char>,
    state: Seq<char>,
)
    ensures
        decision(second, id, Some(state_after(first, state))) == Err::<
            StatementView,
            WorkflowErrorView,
        >(WorkflowErrorView::Conflict { id, state: state_after(first, state) }),
        state_after(second, state_after(first, state)) == state_after(first, state),
{
    decided_ticket_is_settled(first, state);
}

} // verus!
