use hap_tickets::statement::{
    select_by_id, select_by_states, select_pending, select_recent, select_state, CREATE_TICKETS,
    ENABLE_WAL,
};

#[test]
fn by_states_has_one_placeholder_for_each_state() {
    let statement = select_by_states(&["PENDING", "EXPIRED"]);
    assert_eq!(
        statement.sql,
        "SELECT id, \"from\", \"to\", intent, artifact, lease, risk, priority, state, created_at, updated_at FROM tickets WHERE state IN (?, ?) ORDER BY created_at DESC"
    );
    assert_eq!(statement.params, vec!["PENDING".to_string(), "EXPIRED".to_string()]);
}

#[test]
fn by_states_with_one_state_has_no_comma() {
    let statement = select_by_states(&["ACKED"]);
    assert_eq!(
        statement.sql,
        "SELECT id, \"from\", \"to\", intent, artifact, lease, risk, priority, state, created_at, updated_at FROM tickets WHERE state IN (?) ORDER BY created_at DESC"
    );
    assert_eq!(statement.params, vec!["ACKED".to_string()]);
}

#[test]
fn by_states_with_no_state_has_an_empty_list() {
    let statement = select_by_states(&[]);
    assert_eq!(
        statement.sql,
        "SELECT id, \"from\", \"to\", intent, artifact, lease, risk, priority, state, created_at, updated_at FROM tickets WHERE state IN () ORDER BY created_at DESC"
    );
    assert!(statement.params.is_empty());
}

#[test]
fn by_states_keeps_repeated_and_unknown_labels() {
    let statement = select_by_states(&["X", "X", "what ever", ""]);
    assert!(statement.sql.ends_with("WHERE state IN (?, ?, ?, ?) ORDER BY created_at DESC"));
    assert_eq!(
        statement.params,
        vec!["X".to_string(), "X".to_string(), "what ever".to_string(), String::new()]
    );
}

#[test]
fn pending_asks_for_the_three_active_states() {
    let statement = select_pending();
    assert_eq!(
        statement.sql,
        "SELECT id, \"from\", \"to\", intent, artifact, lease, risk, priority, state, created_at, updated_at FROM tickets WHERE state IN (?, ?, ?) ORDER BY created_at DESC"
    );
    assert_eq!(
        statement.params,
        vec!["PENDING".to_string(), "DELIVERED".to_string(), "ACKED".to_string()]
    );
}

#[test]
fn recent_is_limited_to_fifty() {
    let statement = select_recent();
    assert_eq!(
        statement.sql,
        "SELECT id, \"from\", \"to\", intent, artifact, lease, risk, priority, state, created_at, updated_at FROM tickets ORDER BY created_at DESC LIMIT 50"
    );
    assert!(statement.params.is_empty());
}

#[test]
fn by_id_binds_the_id() {
    let statement = select_by_id("t-42");
    assert_eq!(
        statement.sql,
        "SELECT id, \"from\", \"to\", intent, artifact, lease, risk, priority, state, created_at, updated_at FROM tickets WHERE id = ?"
    );
    assert_eq!(statement.params, vec!["t-42".to_string()]);
}

#[test]
fn state_of_binds_the_id() {
    let statement = select_state("it's; DROP TABLE tickets");
    assert_eq!(statement.sql, "SELECT state FROM tickets WHERE id = ?");
    assert_eq!(statement.params, vec!["it's; DROP TABLE tickets".to_string()]);
}

#[test]
fn schema_names_every_column() {
    for column in [
        "id TEXT PRIMARY KEY",
        "\"from\" TEXT NOT NULL",
        "\"to\" TEXT NOT NULL",
        "intent TEXT NOT NULL",
        "artifact TEXT,",
        "lease TEXT NOT NULL",
        "risk REAL NOT NULL",
        "priority TEXT NOT NULL",
        "state TEXT NOT NULL DEFAULT 'PENDING'",
        "created_at TEXT NOT NULL DEFAULT (datetime('now'))",
        "updated_at TEXT NOT NULL DEFAULT (datetime('now'))",
    ] {
        assert!(CREATE_TICKETS.contains(column), "{}", column);
    }
    assert!(CREATE_TICKETS.starts_with("CREATE TABLE IF NOT EXISTS tickets ("));
    assert_eq!(ENABLE_WAL, "PRAGMA journal_mode=WAL;");
}
