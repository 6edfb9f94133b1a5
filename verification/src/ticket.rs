//! Tickets as they are stored and as they are handed out.

use vstd::prelude::*;
use vstd::string::*;
use crate::document::{
    decode_document, decode_optional, decoded, decoded_optional, json_parsed, null_document,
    well_formed,
};

verus! {

/// One row of the `tickets` table, column by column, as the store holds it:
/// the three documents are still serialized text.
#[derive(Debug, Clone)]
pub struct TicketRow {
    pub id: String,
    pub from: String,
    pub to: String,
    pub intent: String,
    pub artifact: Option<String>,
    pub lease: String,
    /// The risk score, as the bit pattern of its IEEE 754 binary64 value.
    pub risk_bits: u64,
    pub priority: String,
    pub state: String,
    pub created_at: String,
    pub updated_at: String,
}

/// A unit of work exchanged between two parties under a lease.
#[derive(Debug)]
pub struct Ticket {
    pub id: String,
    pub from: String,
    pub to: String,
    pub intent: serde_json::Value,
    pub artifact: Option<serde_json::Value>,
    pub lease: serde_json::Value,
    /// The risk score, as the bit pattern of its IEEE 754 binary64 value.
    pub risk_bits: u64,
    pub priority: String,
    pub state: String,
    pub created_at: String,
    pub updated_at: String,
}

/// What a stored row holds.
pub struct TicketRowView {
    pub id: Seq<char>,
    pub from: Seq<char>,
    pub to: Seq<char>,
    pub intent: Seq<char>,
    pub artifact: Option<Seq<char>>,
    pub lease: Seq<char>,
    pub risk_bits: u64,
    pub priority: Seq<char>,
    pub state: Seq<char>,
    pub created_at: Seq<char>,
    pub updated_at: Seq<char>,
}

/// What a ticket holds.
pub struct TicketView {
    pub id: Seq<char>,
    pub from: Seq<char>,
    pub to: Seq<char>,
    pub intent: serde_json::Value,
    pub artifact: Option<serde_json::Value>,
    pub lease: serde_json::Value,
    pub risk_bits: u64,
    pub priority: Seq<char>,
    pub state: Seq<char>,
    pub created_at: Seq<char>,
    pub updated_at: Seq<char>,
}

impl View for TicketRow {
    type V = TicketRowView;

    open spec fn view(&self) -> TicketRowView {
        TicketRowView {
            id: self.id@,
            from: self.from@,
            to: self.to@,
            intent: self.intent@,
            artifact: match self.artifact {
                Some(text) => Some(text@),
                None => None,
            },
            lease: self.lease@,
            risk_bits: self.risk_bits,
            priority: self.priority@,
            state: self.state@,
            created_at: self.created_at@,
            updated_at: self.updated_at@,
        }
    }
}

impl View for Ticket {
    type V = TicketView;

    open spec fn view(&self) -> TicketView {
        TicketView {
            id: self.id@,
            from: self.from@,
            to: self.to@,
            intent: self.intent,
            artifact: self.artifact,
            lease: self.lease,
            risk_bits: self.risk_bits,
            priority: self.priority@,
            state: self.state@,
            created_at: self.created_at@,
            updated_at: self.updated_at@,
        }
    }
}

/// The ticket that a stored row stands for: every column as it is, the three
/// documents decoded leniently, each on its own.
pub open spec fn ticket_of(row: TicketRowView) -> TicketView {
    TicketView {
        id: row.id,
        from: row.from,
        to: row.to,
        intent: decoded(row.intent),
        artifact: decoded_optional(row.artifact),
        lease: decoded(row.lease),
        risk_bits: row.risk_bits,
        priority: row.priority,
        state: row.state,
        created_at: row.created_at,
        updated_at: row.updated_at,
    }
}

impl Clone for Ticket {
    fn clone(&self) -> (copy: Ticket)
        ensures
            copy@ == self@,
    {
        Ticket {
            id: self.id.clone(),
            from: self.from.clone(),
            to: self.to.clone(),
            intent: self.intent.clone(),
            artifact: match &self.artifact {
                Some(doc) => Some(doc.clone()),
                None => None,
            },
            lease: self.lease.clone(),
            risk_bits: self.risk_bits,
            priority: self.priority.clone(),
            state: self.state.clone(),
            created_at: self.created_at.clone(),
            updated_at: self.updated_at.clone(),
        }
    }
}

impl Ticket {
    /// Turns a stored row into a ticket. A malformed document becomes the
    /// null document; nothing else about the row changes.
    pub fn from_row(row: &TicketRow) -> (ticket: Ticket)
        ensures
            ticket@ == ticket_of(row@),
    {
        let artifact = match &row.artifact {
            Some(text) => decode_optional(Some(text.as_str())),
            None => decode_optional(None),
        };
        Ticket {
            id: row.id.clone(),
            from: row.from.clone(),
            to: row.to.clone(),
            intent: decode_document(row.intent.as_str()),
            artifact,
            lease: decode_document(row.lease.as_str()),
            risk_bits: row.risk_bits,
            priority: row.priority.clone(),
            state: row.state.clone(),
            created_at: row.created_at.clone(),
            updated_at: row.updated_at.clone(),
        }
    }
}

/// Each document of a stored row reaches the ticket as what its text
/// parses to. The null document takes its place only where the text is
/// malformed, and an absent artifact stays absent.
pub proof fn stored_documents_are_kept(row: TicketRowView)
    ensures
        well_formed(row.intent) ==> json_parsed(row.intent) == Some(ticket_of(row).intent),
        well_formed(row.lease) ==> json_parsed(row.lease) == Some(ticket_of(row).lease),
        !well_formed(row.intent) ==> ticket_of(row).intent == null_document(),
        !well_formed(row.lease) ==> ticket_of(row).lease == null_document(),
        match row.artifact {
            Some(text) => if well_formed(text) {
                json_parsed(text) == ticket_of(row).artifact
            } else {
                ticket_of(row).artifact == Some(null_document())
            },
            None => ticket_of(row).artifact is None,
        },
{
}

} // verus!
