use hap_tickets::state::{
    is_terminal, ACKED, APPROVED, CANCELED, DELIVERED, EXPIRED, PENDING, REJECTED,
};
use hap_tickets::workflow::{approve, confirm, decide, reject, Transition, WorkflowError};

const UPDATE_APPROVED: &str =
    "UPDATE tickets SET state = 'APPROVED', updated_at = datetime('now') WHERE id = ?";
const UPDATE_REJECTED: &str =
    "UPDATE tickets SET state = 'REJECTED', updated_at = datetime('now') WHERE id = ?";

#[test]
fn the_four_terminal_states_are_terminal() {
    assert!(is_terminal("APPROVED"));
    assert!(is_terminal("REJECTED"));
    assert!(is_terminal("EXPIRED"));
    assert!(is_terminal("CANCELED"));
    assert!(is_terminal(APPROVED) && is_terminal(REJECTED));
    assert!(is_terminal(EXPIRED) && is_terminal(CANCELED));
}

#[test]
fn other_labels_are_not_terminal() {
    assert!(!is_terminal(PENDING));
    assert!(!is_terminal(DELIVERED));
    assert!(!is_terminal(ACKED));
    assert!(!is_terminal(""));
    assert!(!is_terminal("approved"));
    assert!(!is_terminal("APPROVED "));
    assert!(!is_terminal("CANCELLED"));
    assert!(!is_terminal("SOMETHING_ELSE"));
}

#[test]
fn labels_are_spelled_as_stored() {
    assert_eq!(PENDING, "PENDING");
    assert_eq!(DELIVERED, "DELIVERED");
    assert_eq!(ACKED, "ACKED");
    assert_eq!(APPROVED, "APPROVED");
    assert_eq!(REJECTED, "REJECTED");
    assert_eq!(EXPIRED, "EXPIRED");
    assert_eq!(CANCELED, "CANCELED");
    assert_eq!(Transition::Approve.target_state(), "APPROVED");
    assert_eq!(Transition::Reject.target_state(), "REJECTED");
}

#[test]
fn approving_a_pending_ticket_writes_approved() {
    let statement = approve("t1", Some("PENDING"), None).unwrap();
    assert_eq!(statement.sql, UPDATE_APPROVED);
    assert_eq!(statement.params, vec!["t1".to_string()]);
}

#[test]
fn rejecting_a_pending_ticket_writes_rejected() {
    let statement = reject("t1", Some("PENDING"), None).unwrap();
    assert_eq!(statement.sql, UPDATE_REJECTED);
    assert_eq!(statement.params, vec!["t1".to_string()]);
}

#[test]
fn every_active_state_admits_both_transitions() {
    for state in ["PENDING", "DELIVERED", "ACKED"] {
        assert_eq!(approve("a", Some(state), None).unwrap().sql, UPDATE_APPROVED);
        assert_eq!(reject("a", Some(state), None).unwrap().sql, UPDATE_REJECTED);
    }
}

#[test]
fn an_unknown_state_still_admits_a_transition() {
    let statement = decide(Transition::Approve, "odd", Some("ARCHIVED"), None).unwrap();
    assert_eq!(statement.sql, UPDATE_APPROVED);
    assert_eq!(statement.params, vec!["odd".to_string()]);
}

#[test]
fn a_missing_ticket_is_not_found() {
    for transition in [Transition::Approve, Transition::Reject] {
        let error = decide(transition, "ghost", None, None).unwrap_err();
        assert!(matches!(&error, WorkflowError::NotFound { id } if id == "ghost"));
        assert_eq!(error.message(), "Ticket ghost not found");
    }
}

#[test]
fn every_terminal_state_turns_both_transitions_down() {
    for state in ["APPROVED", "REJECTED", "EXPIRED", "CANCELED"] {
        for transition in [Transition::Approve, Transition::Reject] {
            let error = decide(transition, "t9", Some(state), None).unwrap_err();
            assert!(matches!(
                &error,
                WorkflowError::Conflict { id, state: named } if id == "t9" && named == state
            ));
            assert_eq!(
                error.message(),
                format!("Ticket t9 is already in terminal state: {}", state)
            );
        }
    }
}

#[test]
fn the_comment_changes_nothing() {
    for current in [None, Some("PENDING"), Some("ACKED"), Some("EXPIRED")] {
        for transition in [Transition::Approve, Transition::Reject] {
            let without = decide(transition, "t1", current, None);
            let with = decide(transition, "t1", current, Some("looks fine to me"));
            match (without, with) {
                (Ok(a), Ok(b)) => {
                    assert_eq!(a.sql, b.sql);
                    assert_eq!(a.params, b.params);
                }
                (Err(a), Err(b)) => assert_eq!(a.message(), b.message()),
                _ => panic!("the comment changed the decision"),
            }
        }
    }
}

#[test]
fn a_written_state_is_confirmed() {
    assert_eq!(confirm(Transition::Approve, "t1", Ok(1)).unwrap(), "Ticket t1 approved");
    assert_eq!(confirm(Transition::Reject, "t1", Ok(1)).unwrap(), "Ticket t1 rejected");
    assert_eq!(confirm(Transition::Approve, "", Ok(0)).unwrap(), "Ticket  approved");
    assert_eq!(confirm(Transition::Reject, "a b", Ok(usize::MAX)).unwrap(), "Ticket a b rejected");
}

#[test]
fn a_failed_write_is_reported_in_the_store_s_words() {
    let error = confirm(Transition::Approve, "t1", Err("database is locked".to_string())).unwrap_err();
    assert!(matches!(&error, WorkflowError::Store { message } if message == "database is locked"));
    assert_eq!(error.message(), "database is locked");
}

#[test]
fn transitions_compare_and_copy() {
    let transition = Transition::Approve;
    let copy = transition;
    assert_eq!(transition, copy);
    assert_ne!(Transition::Approve, Transition::Reject);
}
