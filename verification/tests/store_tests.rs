use template_app::db::{open_and_migrate, DbPath};
use template_app::logging::{
    clear_logs, initial_log_level, insert_log, log_count, log_entry_from_row, log_query_statement,
    query_logs, LoggerConfig, SELECT_LOGS, SELECT_LOGS_BY_LEVEL,
};
use template_app::settings::{
    self as settings, delete, get, get_typed, keys, list_prefix, set_typed, setting_from_lookup,
    setting_from_row, value_from_stored, Lookup, SettingsError,
};
use template_app::sql::{Cell, SqlParam};

fn memory_db() -> rusqlite::Connection {
    open_and_migrate(":memory:").expect("in-memory database")
}

#[test]
fn migrate_creates_both_tables() {
    let conn = memory_db();
    assert_eq!(get(&conn, "anything").unwrap(), None);
    assert_eq!(log_count(&conn).unwrap(), 0);
}

#[test]
fn get_after_set_gives_value() {
    let conn = memory_db();
    settings::set(&conn, "ui.theme", "dark").unwrap();
    assert_eq!(get(&conn, "ui.theme").unwrap(), Some("dark".to_string()));
}

#[test]
fn set_replaces_value() {
    let conn = memory_db();
    settings::set(&conn, "k", "1").unwrap();
    settings::set(&conn, "k", "2").unwrap();
    assert_eq!(get(&conn, "k").unwrap(), Some("2".to_string()));
    assert_eq!(list_prefix(&conn, None).unwrap().len(), 1);
}

#[test]
fn delete_removes_key() {
    let conn = memory_db();
    settings::set(&conn, "k", "v").unwrap();
    delete(&conn, "k").unwrap();
    assert_eq!(get(&conn, "k").unwrap(), None);
    delete(&conn, "never-stored").unwrap();
}

#[test]
fn list_prefix_filters_and_orders_by_key() {
    let conn = memory_db();
    settings::set(&conn, "ui.theme", "\"dark\"").unwrap();
    settings::set(&conn, "log.level", "debug").unwrap();
    settings::set(&conn, "ui.font_size", "14").unwrap();
    let ui = list_prefix(&conn, Some("ui.")).unwrap();
    assert_eq!(
        ui,
        vec![
            ("ui.font_size".to_string(), "14".to_string()),
            ("ui.theme".to_string(), "\"dark\"".to_string()),
        ]
    );
    let all = list_prefix(&conn, None).unwrap();
    let keys: Vec<&str> = all.iter().map(|(k, _)| k.as_str()).collect();
    assert_eq!(keys, vec!["log.level", "ui.font_size", "ui.theme"]);
}

#[test]
fn lookup_outcomes() {
    assert_eq!(setting_from_lookup(Lookup::Found("v".to_string())).unwrap(), Some("v".to_string()));
    assert_eq!(setting_from_lookup(Lookup::NoRow).unwrap(), None);
    match setting_from_lookup(Lookup::Failed("disk I/O error".to_string())) {
        Err(SettingsError::Db(m)) => assert_eq!(m, "disk I/O error"),
        other => panic!("unexpected {other:?}"),
    }
}

#[test]
fn setting_rows_become_pairs() {
    let pair = setting_from_row(vec![Cell::Text("a".to_string()), Cell::Text("b".to_string())]);
    assert_eq!(pair, ("a".to_string(), "b".to_string()));
}

#[test]
fn typed_values_roundtrip() {
    let conn = memory_db();
    let v = serde_json::Value::from(14);
    set_typed(&conn, keys::UI_FONT_SIZE, &v).unwrap();
    assert_eq!(get(&conn, keys::UI_FONT_SIZE).unwrap(), Some("14".to_string()));
    assert_eq!(get_typed(&conn, keys::UI_FONT_SIZE).unwrap(), v);
}

#[test]
fn typed_get_of_missing_key_is_not_found() {
    let conn = memory_db();
    match get_typed(&conn, "missing") {
        Err(SettingsError::NotFound(k)) => assert_eq!(k, "missing"),
        other => panic!("unexpected {other:?}"),
    }
}

#[test]
fn typed_get_of_non_json_is_serialization_error() {
    let conn = memory_db();
    settings::set(&conn, keys::LOG_LEVEL, "debug").unwrap();
    match get_typed(&conn, keys::LOG_LEVEL) {
        Err(e @ SettingsError::Serialization(_)) => {
            assert!(e.to_string().starts_with("serialization error: "));
        },
        other => panic!("unexpected {other:?}"),
    }
}

#[test]
fn typed_string_value_is_stored_as_json_text() {
    let conn = memory_db();
    let v = serde_json::Value::from("dark");
    set_typed(&conn, keys::UI_THEME, &v).unwrap();
    assert_eq!(get(&conn, keys::UI_THEME).unwrap(), Some("\"dark\"".to_string()));
    assert_eq!(get_typed(&conn, keys::UI_THEME).unwrap(), v);
}

#[test]
fn stored_text_decoding() {
    match value_from_stored("k", None) {
        Err(SettingsError::NotFound(k)) => assert_eq!(k, "k"),
        other => panic!("unexpected {other:?}"),
    }
    assert_eq!(value_from_stored("k", Some("[1, 2]".to_string())).unwrap(), serde_json::Value::from(vec![1, 2]));
    assert!(matches!(value_from_stored("k", Some("[1, 2".to_string())), Err(SettingsError::Serialization(_))));
}

#[test]
fn settings_error_messages() {
    assert_eq!(SettingsError::Db("locked".to_string()).to_string(), "database error: locked");
    assert_eq!(SettingsError::NotFound("ui.theme".to_string()).to_string(), "key not found: ui.theme");
}

#[test]
fn well_known_keys() {
    assert_eq!(keys::UI_THEME, "ui.theme");
    assert_eq!(keys::UI_FONT_SIZE, "ui.font_size");
    assert_eq!(keys::LOG_LEVEL, "log.level");
}

#[test]
fn logs_are_listed_newest_first() {
    let conn = memory_db();
    insert_log(&conn, "INFO", "app", "started").unwrap();
    insert_log(&conn, "WARN", "db", "slow").unwrap();
    insert_log(&conn, "INFO", "app", "ready").unwrap();
    let all = query_logs(&conn, 10, None).unwrap();
    let messages: Vec<&str> = all.iter().map(|e| e.message.as_str()).collect();
    assert_eq!(messages, vec!["ready", "slow", "started"]);
    assert!(all[0].id > all[1].id && all[1].id > all[2].id);
    assert_eq!(all[1].level, "WARN");
    assert_eq!(all[1].target, "db");
    assert!(!all[0].created_at.is_empty());
}

#[test]
fn log_query_limit_and_filter() {
    let conn = memory_db();
    for i in 0..5 {
        insert_log(&conn, if i % 2 == 0 { "INFO" } else { "ERROR" }, "t", &format!("m{i}")).unwrap();
    }
    let two = query_logs(&conn, 2, None).unwrap();
    assert_eq!(two.iter().map(|e| e.message.as_str()).collect::<Vec<_>>(), vec!["m4", "m3"]);
    let errors = query_logs(&conn, 10, Some("ERROR")).unwrap();
    assert_eq!(errors.iter().map(|e| e.message.as_str()).collect::<Vec<_>>(), vec!["m3", "m1"]);
    assert!(query_logs(&conn, 10, Some("TRACE")).unwrap().is_empty());
    assert_eq!(query_logs(&conn, -1, None).unwrap().len(), 5);
}

#[test]
fn count_and_clear() {
    let conn = memory_db();
    insert_log(&conn, "DEBUG", "t", "a").unwrap();
    insert_log(&conn, "DEBUG", "t", "b").unwrap();
    assert_eq!(log_count(&conn).unwrap(), 2);
    clear_logs(&conn).unwrap();
    assert_eq!(log_count(&conn).unwrap(), 0);
    assert!(query_logs(&conn, 10, None).unwrap().is_empty());
}

#[test]
fn log_errors_name_the_step() {
    let conn = rusqlite::Connection::open_in_memory().unwrap();
    assert!(insert_log(&conn, "INFO", "t", "m").unwrap_err().starts_with("Failed to insert log: "));
    assert!(clear_logs(&conn).unwrap_err().starts_with("Failed to clear logs: "));
    assert!(log_count(&conn).unwrap_err().starts_with("Failed to prepare count query: "));
    assert!(query_logs(&conn, 1, None).unwrap_err().starts_with("Failed to prepare query: "));
    assert!(matches!(get(&conn, "k"), Err(SettingsError::Db(_))));
    assert!(matches!(settings::set(&conn, "k", "v"), Err(SettingsError::Db(_))));
}

#[test]
fn log_query_statements() {
    let (sql, params) = log_query_statement(7, Some("WARN"));
    assert_eq!(sql, SELECT_LOGS_BY_LEVEL);
    assert!(matches!(&params[..], [SqlParam::Text(t), SqlParam::Int(7)] if t == "WARN"));
    let (sql, params) = log_query_statement(3, None);
    assert_eq!(sql, SELECT_LOGS);
    assert!(matches!(&params[..], [SqlParam::Int(3)]));
}

#[test]
fn log_rows_become_entries() {
    let e = log_entry_from_row(vec![
        Cell::Int(42),
        Cell::Text("INFO".to_string()),
        Cell::Text("app".to_string()),
        Cell::Text("hello".to_string()),
        Cell::Text("2024-01-01 00:00:00".to_string()),
    ]);
    assert_eq!(e.id, 42);
    assert_eq!(e.level, "INFO");
    assert_eq!(e.target, "app");
    assert_eq!(e.message, "hello");
    assert_eq!(e.created_at, "2024-01-01 00:00:00");
}

#[test]
fn logger_defaults_to_info() {
    assert_eq!(LoggerConfig::default().level, "info");
    assert_eq!(initial_log_level(Ok(Some("debug".to_string()))), "debug");
    assert_eq!(initial_log_level(Ok(None)), LoggerConfig::default().level);
    assert_eq!(initial_log_level(Err(SettingsError::Db("x".to_string()))), "info");
}

#[test]
fn db_path_is_stored_once() {
    let mut p = DbPath::new();
    assert!(p.path().is_none());
    assert_eq!(p.open_readonly().err(), Some("DB not initialized".to_string()));
    assert_eq!(p.open_readwrite().err(), Some("DB not initialized".to_string()));
    let uri = "file:db_path_is_stored_once?mode=memory&cache=shared";
    let _keep = open_and_migrate(uri).unwrap();
    p.store_path(uri.to_string());
    p.store_path("/elsewhere/app.db".to_string());
    assert_eq!(p.path().map(|s| s.as_str()), Some(uri));
    assert!(p.open_readonly().is_ok());
    assert!(p.open_readwrite().is_ok());
}

#[test]
fn opening_a_missing_directory_fails_with_message() {
    let r = open_and_migrate("/nonexistent-dir-for-tests/sub/app.db");
    assert!(r.err().unwrap().starts_with("Failed to open DB: "));
}

#[test]
fn readonly_connection_refuses_writes() {
    let uri = "/tmp/template_app_readonly_connection_test.db";
    let rw = open_and_migrate(uri).unwrap();
    settings::set(&rw, "k", "v").unwrap();
    let mut p = DbPath::new();
    p.store_path(uri.to_string());
    let ro = p.open_readonly().unwrap();
    assert_eq!(get(&ro, "k").unwrap(), Some("v".to_string()));
    assert!(matches!(settings::set(&ro, "k", "w"), Err(SettingsError::Db(_))));
    let rw2 = p.open_readwrite().unwrap();
    settings::set(&rw2, "k", "w").unwrap();
    assert_eq!(get(&ro, "k").unwrap(), Some("w".to_string()));
}

#[test]
fn list_prefix_is_an_exact_prefix() {
    let conn = memory_db();
    settings::set(&conn, "ui_theme", "a").unwrap();
    settings::set(&conn, "uiXtheme", "b").unwrap();
    settings::set(&conn, "UI_other", "c").unwrap();
    settings::set(&conn, "ui_%", "d").unwrap();
    let got = list_prefix(&conn, Some("ui_")).unwrap();
    let keys: Vec<&str> = got.iter().map(|(k, _)| k.as_str()).collect();
    assert_eq!(keys, vec!["ui_%", "ui_theme"]);
    let pct = list_prefix(&conn, Some("ui_%")).unwrap();
    assert_eq!(pct, vec![("ui_%".to_string(), "d".to_string())]);
    assert_eq!(list_prefix(&conn, Some("")).unwrap(), list_prefix(&conn, None).unwrap());
    assert!(list_prefix(&conn, Some("zzz")).unwrap().is_empty());
}
