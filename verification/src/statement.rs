//! The statements that the store is asked to run.
//!
//! A statement is its SQL text and the texts bound to its `?` placeholders,
//! in order. Whoever owns the connection prepares the text, binds the
//! parameters and runs it; nothing here touches a database.

use vstd::prelude::*;
use vstd::string::*;
use crate::state::{active_labels, is_active_label, ACKED, DELIVERED, PENDING};

verus! {

/// Creates the `tickets` table unless it is there already.
pub const CREATE_TICKETS: &'static str =
    "CREATE TABLE IF NOT EXISTS tickets (
            id TEXT PRIMARY KEY,
            \"from\" TEXT NOT NULL,
            \"to\" TEXT NOT NULL,
            intent TEXT NOT NULL,
            artifact TEXT,
            lease TEXT NOT NULL,
            risk REAL NOT NULL,
            priority TEXT NOT NULL,
            state TEXT NOT NULL DEFAULT 'PENDING',
            created_at TEXT NOT NULL DEFAULT (datetime('now')),
            updated_at TEXT NOT NULL DEFAULT (datetime('now'))
        );";

/// Switches the database to write-ahead logging.
pub const ENABLE_WAL: &'static str = "PRAGMA journal_mode=WAL;";

/// Reads every column of a ticket, in the order of a `TicketRow`'s fields.
pub const SELECT_TICKETS: &'static str =
    "SELECT id, \"from\", \"to\", intent, artifact, lease, risk, priority, state, created_at, updated_at FROM tickets";

/// Opens the list of states that a query by state asks for.
pub const WHERE_STATE_IN: &'static str = " WHERE state IN (";

/// Closes that list and orders the answer, newest first.
pub const NEWEST_FIRST: &'static str = ") ORDER BY created_at DESC";

/// Orders the answer, newest first, and cuts it after fifty rows.
pub const NEWEST_FIFTY: &'static str = " ORDER BY created_at DESC LIMIT 50";

/// Narrows a query to the ticket whose id is bound.
pub const WHERE_ID: &'static str = " WHERE id = ?";

/// Reads the state of one ticket.
pub const SELECT_STATE: &'static str = "SELECT state FROM tickets WHERE id = ?";

/// A statement for the store: its text and what is bound to its
/// placeholders.
#[derive(Debug, Clone)]
pub struct Statement {
    pub sql: String,
    pub params: Vec<String>,
}

/// What a statement holds.
pub struct StatementView {
    pub sql: Seq<char>,
    pub params: Seq<Seq<char>>,
}

impl View for Statement {
    type V = StatementView;

    open spec fn view(&self) -> StatementView {
        StatementView { sql: self.sql@, params: self.params@.map_values(|p: String| p@) }
    }
}

/// `count` placeholders, separated by a comma and a space.
pub open spec fn placeholders(count: nat) -> Seq<char>
    decreases count,
{
    if count == 0 {
        Seq::empty()
    } else if count == 1 {
        "?"@
    } else {
        placeholders((count - 1) as nat) + ", ?"@
    }
}

/// The statement that reads the tickets whose state is one of `states`,
/// newest first.
pub open spec fn by_states(states: Seq<Seq<char>>) -> StatementView {
    StatementView {
        sql: SELECT_TICKETS@ + WHERE_STATE_IN@ + placeholders(states.len()) + NEWEST_FIRST@,
        params: states,
    }
}

/// The statement that reads the newest fifty tickets, newest first.
pub open spec fn recent() -> StatementView {
    StatementView { sql: SELECT_TICKETS@ + NEWEST_FIFTY@, params: Seq::empty() }
}

/// The statement that reads the ticket with the given id.
pub open spec fn by_id(id: Seq<char>) -> StatementView {
    StatementView { sql: SELECT_TICKETS@ + WHERE_ID@, params: seq![id] }
}

/// The statement that reads the state of the ticket with the given id.
pub open spec fn state_of(id: Seq<char>) -> StatementView {
    StatementView { sql: SELECT_STATE@, params: seq![id] }
}

/// The views of a list of texts.
pub open spec fn texts(labels: Seq<&str>) -> Seq<Seq<char>> {
    labels.map_values(|label: &str| label@)
}

fn placeholder_list(count: usize) -> (list: String)
    ensures
        list@ == placeholders(count as nat),
{
    let mut list = String::new();
    let mut i: usize = 0;
    while i < count
        invariant
            i <= count,
            list@ == placeholders(i as nat),
        decreases count - i,
    {
        if i == 0 {
            list.append("?");
            assert(list@ =~= "?"@);
        } else {
            list.append(", ?");
        }
        i += 1;
    }
    list
}

/// Asks for the tickets whose state is one of `states`, newest first: one
/// placeholder and one parameter for each label, in the order given.
pub fn select_by_states(states: &[&str]) -> (statement: Statement)
    ensures
        statement@ == by_states(texts(states@)),
{
    let mut sql = String::from_str(SELECT_TICKETS);
    sql.append(WHERE_STATE_IN);
    let list = placeholder_list(states.len());
    sql.append(list.as_str());
    sql.append(NEWEST_FIRST);
    let mut params: Vec<String> = Vec::new();
    let mut i: usize = 0;
    while i < states.len()
        invariant
            i <= states.len(),
            params@.map_values(|p: String| p@) == texts(states@).take(i as int),
        decreases states.len() - i,
    {
        let ghost before = params@;
        let label = String::from_str(states[i]);
        params.push(label);
        assert(params@.map_values(|p: String| p@) =~= before.map_values(|p: String| p@).push(
            label@,
        ));
        assert(texts(states@).take(i + 1) =~= texts(states@).take(i as int).push(states@[i as int]@));
        i += 1;
    }
    assert(texts(states@).take(states@.len() as int) =~= texts(states@));
    Statement { sql, params }
}

/// Asks for the tickets that need attention: those whose state is
/// `PENDING`, `DELIVERED` or `ACKED`, newest first.
pub fn select_pending() -> (statement: Statement)
    ensures
        statement@ == by_states(active_labels()),
{
    let states: [&str; 3] = [PENDING, DELIVERED, ACKED];
    assert(texts(states@) =~= active_labels());
    select_by_states(&states)
}

/// Asks for the newest fifty tickets of any state, newest first.
pub fn select_recent() -> (statement: Statement)
    ensures
        statement@ == recent(),
{
    let mut sql = String::from_str(SELECT_TICKETS);
    sql.append(NEWEST_FIFTY);
    let params: Vec<String> = Vec::new();
    assert(params@.map_values(|p: String| p@) =~= Seq::<Seq<char>>::empty());
    Statement { sql, params }
}

/// Asks for the ticket with the given id.
pub fn select_by_id(id: &str) -> (statement: Statement)
    ensures
        statement@ == by_id(id@),
{
    let mut sql = String::from_str(SELECT_TICKETS);
    sql.append(WHERE_ID);
    let mut params: Vec<String> = Vec::new();
    params.push(String::from_str(id));
    assert(params@.map_values(|p: String| p@) =~= seq![id@]);
    Statement { sql, params }
}

/// Asks for the state of the ticket with the given id.
pub fn select_state(id: &str) -> (statement: Statement)
    ensures
        statement@ == state_of(id@),
{
    let sql = String::from_str(SELECT_STATE);
    let mut params: Vec<String> = Vec::new();
    params.push(String::from_str(id));
    assert(params@.map_values(|p: String| p@) =~= seq![id@]);
    Statement { sql, params }
}

/// The listing of pending tickets asks for the states that need attention
/// and for no other: a label is among its parameters exactly if it is
/// `PENDING`, `DELIVERED` or `ACKED`.
pub proof fn pending_asks_for_active_states(state: Seq<char>)
    ensures
        by_states(active_labels()).params.contains(state) <==> is_active_label(state),
        by_states(active_labels()).sql == SELECT_TICKETS@ + WHERE_STATE_IN@ + "?, ?, ?"@
            + NEWEST_FIRST@,
{
    let labels = active_labels();
    assert(labels[0] == PENDING@ && labels[1] == DELIVERED@ && labels[2] == ACKED@);
    reveal_strlit("?");
    reveal_strlit(", ?");
    reveal_strlit("?, ?, ?");
    reveal_with_fuel(placeholders, 4);
    assert(placeholders(3) =~= "?, ?, ?"@);
}

} // verus!
