use reading_status::config::{
    normalize_database_url, resolve_database_url, sqlite_file_path, DEFAULT_DATABASE_URL,
};

#[test]
fn foreign_form_is_normalized() {
    assert_eq!(normalize_database_url("sqlite:///./data/read_status.db"), "sqlite:./data/read_status.db");
    assert_eq!(normalize_database_url("sqlite:///tmp/x.db"), "sqlite:tmp/x.db");
    assert_eq!(normalize_database_url("sqlite:///"), "sqlite:");
}

#[test]
fn other_forms_are_kept() {
    assert_eq!(normalize_database_url("sqlite:./data/x.db"), "sqlite:./data/x.db");
    assert_eq!(normalize_database_url("sqlite::memory:"), "sqlite::memory:");
    assert_eq!(normalize_database_url("postgres://h/db"), "postgres://h/db");
    assert_eq!(normalize_database_url(""), "");
}

#[test]
fn default_location() {
    assert_eq!(DEFAULT_DATABASE_URL, "sqlite:///./data/read_status.db");
    assert_eq!(resolve_database_url(None), "sqlite:./data/read_status.db");
    assert_eq!(resolve_database_url(Some("sqlite::memory:")), "sqlite::memory:");
    assert_eq!(resolve_database_url(Some("sqlite:///a/b.db")), "sqlite:a/b.db");
}

#[test]
fn file_path_of_store() {
    assert_eq!(sqlite_file_path("sqlite:./data/x.db"), Some("./data/x.db".to_string()));
    assert_eq!(sqlite_file_path("sqlite:x.db"), Some("x.db".to_string()));
    assert_eq!(sqlite_file_path("sqlite:sqlite:x.db"), Some("x.db".to_string()));
    assert_eq!(sqlite_file_path("sqlite::memory:"), None);
    assert_eq!(sqlite_file_path("sqlite:file::memory:?cache=shared"), None);
    assert_eq!(sqlite_file_path("postgres://h/db"), None);
}
