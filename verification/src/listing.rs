//! From the rows that a query brought to the tickets that a caller sees.
//!
//! A row is handed over as `None` where one of its columns could not be
//! read. Such a row is left out; every other row becomes a ticket, in the
//! order in which the store gave it.

use vstd::prelude::*;
use crate::text::text_le;
use crate::ticket::{ticket_of, Ticket, TicketRow, TicketView};

verus! {

/// The most rows that a listing of all tickets takes.
pub const LIST_ALL_LIMIT: usize = 50;

/// The tickets of the readable rows, in the rows' order.
pub open spec fn tickets_of(rows: Seq<Option<TicketRow>>) -> Seq<TicketView>
    decreases rows.len(),
{
    if rows.len() == 0 {
        Seq::empty()
    } else {
        let earlier = tickets_of(rows.drop_last());
        match rows.last() {
            Some(row) => earlier.push(ticket_of(row@)),
            None => earlier,
        }
    }
}

/// What each ticket of a list holds.
pub open spec fn views(tickets: Seq<Ticket>) -> Seq<TicketView> {
    tickets.map_values(|t: Ticket| t@)
}

/// The first rows of a query's answer, as many as a listing of all tickets
/// takes.
pub open spec fn most_recent(rows: Seq<Option<TicketRow>>) -> Seq<Option<TicketRow>> {
    if rows.len() <= LIST_ALL_LIMIT {
        rows
    } else {
        rows.take(LIST_ALL_LIMIT as int)
    }
}

/// Whether no readable row is followed by one that was created later.
pub open spec fn rows_newest_first(rows: Seq<Option<TicketRow>>) -> bool {
    forall|i: int, j: int|
        0 <= i < j < rows.len() ==> match (#[trigger] rows[i], #[trigger] rows[j]) {
            (Some(first), Some(second)) => text_le(second.created_at@, first.created_at@),
            _ => true,
        }
}

/// Whether no ticket is followed by one that was created later.
pub open spec fn newest_first(tickets: Seq<TicketView>) -> bool {
    forall|i: int, j: int|
        0 <= i < j < tickets.len() ==> text_le(
            (#[trigger] tickets[j]).created_at,
            (#[trigger] tickets[i]).created_at,
        )
}

fn tickets_from_first(rows: &Vec<Option<TicketRow>>, count: usize) -> (tickets: Vec<Ticket>)
    requires
        count <= rows.len(),
    ensures
        views(tickets@) == tickets_of(rows@.take(count as int)),
{
    let mut tickets: Vec<Ticket> = Vec::new();
    let mut i: usize = 0;
    assert(views(tickets@) =~= tickets_of(rows@.take(0)));
    while i < count
        invariant
            i <= count <= rows.len(),
            views(tickets@) == tickets_of(rows@.take(i as int)),
        decreases count - i,
    {
        proof {
            let next = rows@.take(i + 1);
            assert(next.drop_last() =~= rows@.take(i as int));
            assert(next.last() == rows@[i as int]);
        }
        let ghost before = tickets@;
        match &rows[i] {
            Some(row) => {
                let ticket = Ticket::from_row(row);
                tickets.push(ticket);
                assert(views(tickets@) =~= views(before).push(ticket@));
            },
            None => {},
        }
        i += 1;
    }
    tickets
}

/// The tickets of a query's answer: one for each readable row, in the
/// store's order. A document that does not parse costs its row nothing but
/// that document.
pub fn query_tickets(rows: &Vec<Option<TicketRow>>) -> (tickets: Vec<Ticket>)
    ensures
        views(tickets@) == tickets_of(rows@),
{
    assert(rows@.take(rows@.len() as int) =~= rows@);
    tickets_from_first(rows, rows.len())
}

/// The tickets of a listing of all tickets: those of the first
/// `LIST_ALL_LIMIT` rows of the answer, in the store's order.
pub fn list_all(rows: &Vec<Option<TicketRow>>) -> (tickets: Vec<Ticket>)
    ensures
        views(tickets@) == tickets_of(most_recent(rows@)),
        tickets@.len() <= LIST_ALL_LIMIT,
{
    let count: usize = if rows.len() <= LIST_ALL_LIMIT {
        rows.len()
    } else {
        LIST_ALL_LIMIT
    };
    proof {
        assert(rows@.take(count as int) =~= most_recent(rows@));
        tickets_no_more_than_rows(most_recent(rows@));
    }
    tickets_from_first(rows, count)
}

/// The ticket of a lookup by id: that of the row, where one was found and
/// could be read, and none otherwise.
pub fn get_ticket(row: Option<&TicketRow>) -> (ticket: Option<Ticket>)
    ensures
        match row {
            Some(found) => ticket matches Some(t) && t@ == ticket_of(found@),
            None => ticket is None,
        },
{
    match row {
        Some(found) => Some(Ticket::from_row(found)),
        None => None,
    }
}

/// A listing never holds more tickets than the answer had rows.
pub proof fn tickets_no_more_than_rows(rows: Seq<Option<TicketRow>>)
    ensures
        tickets_of(rows).len() <= rows.len(),
    decreases rows.len(),
{
    if rows.len() > 0 {
        tickets_no_more_than_rows(rows.drop_last());
    }
}

/// Every ticket of a listing comes from a readable row of the answer.
proof fn row_behind(rows: Seq<Option<TicketRow>>, k: int) -> (i: int)
    requires
        0 <= k < tickets_of(rows).len(),
    ensures
        0 <= i < rows.len(),
        rows[i] matches Some(row) && ticket_of(row@) == tickets_of(rows)[k],
    decreases rows.len(),
{
    let earlier = tickets_of(rows.drop_last());
    if rows.last() is Some && k == earlier.len() {
        rows.len() - 1
    } else {
        row_behind(rows.drop_last(), k)
    }
}

/// Every readable row of the answer is in the listing, whatever its
/// documents hold and whatever rows stand beside it.
pub proof fn readable_row_is_listed(rows: Seq<Option<TicketRow>>, i: int)
    requires
        0 <= i < rows.len(),
        rows[i] is Some,
    ensures
        tickets_of(rows).contains(ticket_of(rows[i]->Some_0@)),
    decreases rows.len(),
{
    let earlier = tickets_of(rows.drop_last());
    if i == rows.len() - 1 {
        assert(tickets_of(rows)[earlier.len() as int] == ticket_of(rows[i]->Some_0@));
    } else {
        readable_row_is_listed(rows.drop_last(), i);
        let k = choose|k: int|
            0 <= k < earlier.len() && earlier[k] == ticket_of(rows[i]->Some_0@);
        assert(tickets_of(rows)[k] == ticket_of(rows[i]->Some_0@));
    }
}

/// A listing keeps the store's order: where the rows came newest first, so
/// do the tickets.
pub proof fn listing_keeps_newest_first(rows: Seq<Option<TicketRow>>)
    requires
        rows_newest_first(rows),
    ensures
        newest_first(tickets_of(rows)),
    decreases rows.len(),
{
    if rows.len() > 0 {
        let front = rows.drop_last();
        assert forall|i: int, j: int| 0 <= i < j < front.len() implies match (
            #[trigger] front[i],
            #[trigger] front[j],
        ) {
            (Some(first), Some(second)) => text_le(second.created_at@, first.created_at@),
            _ => true,
        } by {
            assert(front[i] == rows[i] && front[j] == rows[j]);
        }
        listing_keeps_newest_first(front);
        let earlier = tickets_of(front);
        let all = tickets_of(rows);
        assert forall|a: int, b: int| 0 <= a < b < all.len() implies text_le(
            (#[trigger] all[b]).created_at,
            (#[trigger] all[a]).created_at,
        ) by {
            if b < earlier.len() {
                assert(all[a] == earlier[a] && all[b] == earlier[b]);
            } else {
                let i = row_behind(front, a);
                assert(front[i] == rows[i]);
                assert(rows[rows.len() - 1] == rows.last());
            }
        }
    }
}

/// A listing of all tickets holds at most `LIST_ALL_LIMIT` of them, and
/// where the rows came newest first, so do the tickets.
pub proof fn list_all_is_bounded_and_ordered(rows: Seq<Option<TicketRow>>)
    ensures
        tickets_of(most_recent(rows)).len() <= LIST_ALL_LIMIT,
        rows_newest_first(rows) ==> newest_first(tickets_of(most_recent(rows))),
{
    let taken = most_recent(rows);
    tickets_no_more_than_rows(taken);
    if rows_newest_first(rows) {
        assert forall|i: int, j: int| 0 <= i < j < taken.len() implies match (
            #[trigger] taken[i],
            #[trigger] taken[j],
        ) {
            (Some(first), Some(second)) => text_le(second.created_at@, first.created_at@),
            _ => true,
        } by {
            assert(taken[i] == rows[i] && taken[j] == rows[j]);
        }
        listing_keeps_newest_first(taken);
    }
}

} // verus!
