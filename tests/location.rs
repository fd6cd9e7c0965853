use doit::location::{database_url, forward_slashed, greeting, DATABASE_DIR, DATABASE_FILE};

#[test]
fn backslashes_become_slashes() {
    assert_eq!(forward_slashed(r"C:\Users\me\doit-db"), "C:/Users/me/doit-db");
    assert_eq!(forward_slashed(r"\\"), "//");
    assert_eq!(forward_slashed(""), "");
    assert_eq!(forward_slashed("/home/me"), "/home/me");
}

#[test]
fn url_of_unix_directory() {
    assert_eq!(database_url("/home/me/doit-db"), "sqlite:///home/me/doit-db/db.sqlite");
}

#[test]
fn url_of_windows_directory() {
    assert_eq!(database_url(r"C:\Users\me\doit-db"), "sqlite://C:/Users/me/doit-db/db.sqlite");
}

#[test]
fn greeting_carries_url() {
    let url = database_url("/home/me/doit-db");
    let g = greeting(&url);
    assert_eq!(g, "Hello, sqlite:///home/me/doit-db/db.sqlite! You've been greeted from Rust!");
    assert!(g.starts_with("Hello, sqlite://"));
    assert!(!g.contains('\\'));
}

#[test]
fn greeting_of_empty_url() {
    assert_eq!(greeting(""), "Hello, ! You've been greeted from Rust!");
}

#[test]
fn location_names() {
    assert_eq!(DATABASE_DIR, "doit-db");
    assert_eq!(DATABASE_FILE, "db.sqlite");
}
