//! The labels of a ticket's lifecycle state.
//!
//! A ticket is created `PENDING` and may pass through `DELIVERED` and
//! `ACKED`; these three need attention. The other four are terminal: no
//! transition moves a ticket out of them.

use vstd::prelude::*;
use crate::text::text_eq;

verus! {

/// Created and waiting.
pub const PENDING: &'static str = "PENDING";

/// Handed to the receiving party.
pub const DELIVERED: &'static str = "DELIVERED";

/// Acknowledged by the receiving party.
pub const ACKED: &'static str = "ACKED";

/// Approved by an operator; terminal.
pub const APPROVED: &'static str = "APPROVED";

/// Rejected by an operator; terminal.
pub const REJECTED: &'static str = "REJECTED";

/// Its lease ran out; terminal.
pub const EXPIRED: &'static str = "EXPIRED";

/// Withdrawn; terminal.
pub const CANCELED: &'static str = "CANCELED";

/// Whether a label names a terminal state.
pub open spec fn is_terminal_label(state: Seq<char>) -> bool {
    state == APPROVED@ || state == REJECTED@ || state == EXPIRED@ || state == CANCELED@
}

/// Whether a label names a state that needs attention.
pub open spec fn is_active_label(state: Seq<char>) -> bool {
    state == PENDING@ || state == DELIVERED@ || state == ACKED@
}

/// The labels that a listing of pending tickets asks for, in the order in
/// which it names them.
pub open spec fn active_labels() -> Seq<Seq<char>> {
    seq![PENDING@, DELIVERED@, ACKED@]
}

/// Whether a state is terminal. Any other label, known or not, still admits
/// a transition.
pub fn is_terminal(state: &str) -> (terminal: bool)
    ensures
        terminal == is_terminal_label(state@),
{
    text_eq(state, APPROVED) || text_eq(state, REJECTED) || text_eq(state, EXPIRED) || text_eq(
        state,
        CANCELED,
    )
}

/// The seven labels are seven different texts.
pub proof fn labels_differ()
    ensures
        PENDING@ != DELIVERED@,
        PENDING@ != ACKED@,
        DELIVERED@ != ACKED@,
        APPROVED@ != REJECTED@,
        APPROVED@ != EXPIRED@,
        APPROVED@ != CANCELED@,
        REJECTED@ != EXPIRED@,
        REJECTED@ != CANCELED@,
        EXPIRED@ != CANCELED@,
        forall|state: Seq<char>| !(is_active_label(state) && is_terminal_label(state)),
{
    reveal_strlit("PENDING");
    reveal_strlit("DELIVERED");
    reveal_strlit("ACKED");
    reveal_strlit("APPROVED");
    reveal_strlit("REJECTED");
    reveal_strlit("EXPIRED");
    reveal_strlit("CANCELED");
    assert(PENDING@[0] == 'P' && DELIVERED@[0] == 'D' && ACKED@[1] == 'C');
    assert(APPROVED@[1] == 'P' && REJECTED@[0] == 'R' && EXPIRED@[0] == 'E' && CANCELED@[0] == 'C');
}

} // verus!
