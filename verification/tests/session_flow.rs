use pg_lsp::commands::{strip_command_prefix, CommandType};
use pg_lsp::db::{listener_step, DbConnection, ListenerAction, ListenerEvent};
use pg_lsp::diagnostics::{Diagnostic, DiagnosticTag, Severity};
use pg_lsp::schema::SchemaCache;
use pg_lsp::session::Session;
use pg_lsp::text::TextRange;

fn table(schema: &str, name: &str, comment: Option<&str>) -> pg_lsp::schema::Table {
    pg_lsp::schema::Table {
        schema: schema.to_string(),
        name: name.to_string(),
        comment: comment.map(|c| c.to_string()),
        columns: Vec::new(),
    }
}

#[test]
fn version_monotonicity_drops_stale_edits() {
    let mut session = Session::new();
    let mut applied: Vec<i32> = Vec::new();
    for version in [1, 2, 5, 3, 6] {
        let changed = session.apply_change(
            "file.sql".to_string(),
            version,
            format!("select {version}"),
        );
        if !changed.is_empty() {
            applied.push(version);
        }
    }
    assert_eq!(applied, vec![1, 2, 5, 6]);
    assert_eq!(session.documents.len(), 1);
    assert_eq!(session.documents[0].version, 6);
    assert_eq!(session.documents[0].text, "select 6");
}

#[test]
fn open_then_change_then_close() {
    let mut session = Session::new();
    let changed = session.apply_change("a.sql".to_string(), 1, "select 1".to_string());
    assert_eq!(changed, vec!["a.sql".to_string()]);
    let changed = session.apply_change("a.sql".to_string(), 2, "select 2".to_string());
    assert_eq!(changed, vec!["a.sql".to_string()]);
    assert_eq!(session.documents.len(), 1);
    session.on_file_closed("a.sql");
    assert!(session.documents.is_empty());
    session.on_file_closed("a.sql");
    assert!(session.documents.is_empty());
}

#[test]
fn save_sweeps_all_open_documents() {
    let mut session = Session::new();
    session.apply_change("a.sql".to_string(), 1, "select 1".to_string());
    session.apply_change("b.sql".to_string(), 1, "select 2".to_string());
    let changed = session.on_save("a.sql");
    assert_eq!(
        changed,
        vec!["a.sql".to_string(), "a.sql".to_string(), "b.sql".to_string()]
    );
}

#[test]
fn snapshot_swap_is_whole_and_republishes_open_documents() {
    let mut session = Session::new();
    session.apply_change("a.sql".to_string(), 1, "select 1".to_string());
    session.apply_change("b.sql".to_string(), 1, "select 2".to_string());
    assert_eq!(session.snapshot().tables.len(), 0);
    let snapshot = SchemaCache {
        tables: vec![table("public", "users", Some("app users"))],
    };
    let changed = session.update_schema(snapshot);
    assert_eq!(changed, vec!["a.sql".to_string(), "b.sql".to_string()]);
    let read = session.snapshot();
    assert_eq!(read.tables.len(), 1);
    assert_eq!(read.tables[0].name, "users");
    assert_eq!(read.tables[0].comment.as_deref(), Some("app users"));
}

#[test]
fn reconfiguration_is_idempotent_per_connection_string() {
    let mut session = Session::new();
    let conn = "postgres://localhost/app";
    let mut connects = 0;
    for _ in 0..2 {
        if session.wants_reconnect(conn) {
            connects += 1;
            let mut db = DbConnection::new(conn.to_string());
            let channels = db.start_listening();
            assert_eq!(channels, vec!["postgres_lsp".to_string(), "pgrst".to_string()]);
            let old = session.install_db(db);
            assert!(old.is_none());
        }
    }
    assert_eq!(connects, 1);
    assert!(session.has_db());
    assert!(session.wants_reconnect("postgres://localhost/other"));
}

#[test]
fn superseded_source_is_handed_back_for_closing() {
    let mut session = Session::new();
    session.install_db(DbConnection::new("postgres://a".to_string()));
    let old = session.install_db(DbConnection::new("postgres://b".to_string()));
    let old = old.expect("the first source must be handed back");
    assert_eq!(old.connection_string, "postgres://a");
    assert!(!old.close().abort_listener);
    assert!(!session.wants_reconnect("postgres://b"));
}

#[test]
fn close_without_listener_aborts_nothing() {
    let db = DbConnection::new("postgres://localhost/app".to_string());
    assert!(!db.close().abort_listener);
}

#[test]
fn close_with_live_listener_demands_abort() {
    let mut db = DbConnection::new("postgres://localhost/app".to_string());
    db.start_listening();
    assert!(db.close().abort_listener);
}

#[test]
fn listener_reacts_only_to_the_reload_sentinel() {
    let reload = ListenerEvent::Notification {
        payload: "reload schema".to_string(),
    };
    assert_eq!(listener_step(&reload), ListenerAction::ReloadSchema);
    let other = ListenerEvent::Notification {
        payload: "something else".to_string(),
    };
    assert_eq!(listener_step(&other), ListenerAction::Ignore);
    let almost = ListenerEvent::Notification {
        payload: "reload schema ".to_string(),
    };
    assert_eq!(listener_step(&almost), ListenerAction::Ignore);
    let error = ListenerEvent::ReceiveError {
        message: "connection reset".to_string(),
    };
    assert_eq!(listener_step(&error), ListenerAction::Stop);
}

#[test]
fn diagnostics_are_stored_per_document() {
    let mut session = Session::new();
    session.apply_change("a.sql".to_string(), 1, "select 1".to_string());
    assert!(session.get_diagnostics("a.sql").is_empty());
    let diag = Diagnostic {
        message: "unknown table".to_string(),
        severity: Severity::Error,
        range: TextRange::new(0, 6),
    };
    assert!(session.set_diagnostics("a.sql", vec![diag]));
    let got = session.get_diagnostics("a.sql");
    assert_eq!(got.len(), 1);
    assert_eq!(got[0].message, "unknown table");
    assert_eq!(got[0].range, TextRange::new(0, 6));
    assert!(!session.set_diagnostics("missing.sql", Vec::new()));
    assert!(session.get_diagnostics("missing.sql").is_empty());
}

#[test]
fn diagnostic_tags_classify_both_ways() {
    assert!(DiagnosticTag::Unnecessary.is_unnecessary());
    assert!(!DiagnosticTag::Unnecessary.is_deprecated());
    assert!(DiagnosticTag::Deprecated.is_deprecated());
    assert!(!DiagnosticTag::Deprecated.is_unnecessary());
    assert!(DiagnosticTag::Both.is_unnecessary());
    assert!(DiagnosticTag::Both.is_deprecated());
}

#[test]
fn command_identifiers_round_trip() {
    let all = CommandType::all();
    assert_eq!(all.len(), 1);
    for c in all {
        assert_eq!(CommandType::from_id(c.id()), Some(c));
    }
    assert_eq!(CommandType::from_id("dropEverything"), None);
}

#[test]
fn command_prefix_is_stripped_only_when_present() {
    assert_eq!(strip_command_prefix("pglsp.executeStatement"), "executeStatement");
    assert_eq!(strip_command_prefix("executeStatement"), "executeStatement");
    assert_eq!(strip_command_prefix("pglsp."), "");
    assert_eq!(strip_command_prefix("pg"), "pg");
    assert_eq!(
        CommandType::from_id(strip_command_prefix("pglsp.executeStatement")),
        Some(CommandType::ExecuteStatement)
    );
}
