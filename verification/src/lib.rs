//! Ticket persistence rules and the approval state machine of a local
//! ticket queue: how stored rows become tickets, which statements the store
//! is asked to run, and which transitions a ticket's state admits.

pub mod document;
pub mod listing;
pub mod state;
pub mod statement;
pub mod text;
pub mod ticket;
pub mod workflow;
