use session_broker::commands::CmdError;
use session_broker::migrations::{
    migrations, pending_migrations, unknown_applied, SqlMigration,
};

#[test]
fn known_migrations_are_listed_in_order() {
    let known = migrations();
    assert_eq!(known.len(), 1);
    assert_eq!(known[0].name(), "m202509221140_create_servers_table");
    assert!(known[0].sql().contains("servers"));
}

#[test]
fn migration_keeps_name_and_sql() {
    let m = SqlMigration::new("m1", "CREATE TABLE t (x INTEGER);");
    assert_eq!(m.name(), "m1");
    assert_eq!(m.sql(), "CREATE TABLE t (x INTEGER);");
}

#[test]
fn all_migrations_pending_on_fresh_database() {
    let known = migrations();
    let applied: Vec<String> = vec![];
    assert_eq!(pending_migrations(&known, &applied), vec![0]);
}

#[test]
fn applied_migrations_are_skipped() {
    let known = migrations();
    let applied = vec!["m202509221140_create_servers_table".to_string()];
    assert!(pending_migrations(&known, &applied).is_empty());
}

#[test]
fn pending_keeps_declaration_order() {
    let known = vec![
        SqlMigration::new("m1", "CREATE TABLE a (x INTEGER);"),
        SqlMigration::new("m2", "CREATE TABLE b (x INTEGER);"),
        SqlMigration::new("m3", "CREATE TABLE c (x INTEGER);"),
    ];
    let applied = vec!["m2".to_string()];
    assert_eq!(pending_migrations(&known, &applied), vec![0, 2]);
}

#[test]
fn stray_applied_names_are_reported() {
    let known = migrations();
    let applied = vec![
        "m202509221140_create_servers_table".to_string(),
        "m_from_a_newer_build".to_string(),
    ];
    assert_eq!(unknown_applied(&known, &applied), vec!["m_from_a_newer_build".to_string()]);
}

#[test]
fn no_stray_names_when_all_known() {
    let known = migrations();
    let applied = vec!["m202509221140_create_servers_table".to_string()];
    assert!(unknown_applied(&known, &applied).is_empty());
}

#[test]
fn coded_error_carries_message_and_code() {
    let e = CmdError::coded("server not found".to_string(), "not_found".to_string());
    assert_eq!(e.message, "server not found");
    assert_eq!(e.code, Some("not_found".to_string()));
}
