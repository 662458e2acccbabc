use chatguard::UserId;
use chatguard::whitelist::WhitelistStore;

#[test]
fn add_if_absent_twice_persists_one_entry() {
    let mut store = WhitelistStore::new();
    let (first, second, verified) = store.add_if_absent_twice(UserId(42), "alice");
    assert_eq!(first, Some("42 alice".to_string()));
    assert_eq!(second, None);
    assert!(verified);
}

#[test]
fn prepare_then_commit_grants_membership() {
    let mut store = WhitelistStore::new();
    assert!(!store.is_whitelisted(UserId(7)));
    let line = store.prepare_add(UserId(7), "bob").expect("absent user must prepare a line");
    assert_eq!(line, "7 bob");
    store.commit_add(UserId(7));
    assert!(store.is_whitelisted(UserId(7)));
    assert_eq!(store.prepare_add(UserId(7), "bob"), None);
}

#[test]
fn uncommitted_prepare_grants_nothing() {
    let store = WhitelistStore::new();
    let prepared = store.prepare_add(UserId(9), "carol");
    assert!(prepared.is_some());
    assert!(!store.is_whitelisted(UserId(9)));
}

#[test]
fn load_reads_leading_token_of_each_line() {
    let lines: Vec<String> = vec![
        "42 alice".to_string(),
        "7 bob with extra words".to_string(),
        "100".to_string(),
    ];
    let store = WhitelistStore::from_lines(&lines);
    assert!(store.is_whitelisted(UserId(42)));
    assert!(store.is_whitelisted(UserId(7)));
    assert!(store.is_whitelisted(UserId(100)));
    assert!(!store.is_whitelisted(UserId(1)));
}

#[test]
fn corrupt_lines_are_skipped_without_aborting() {
    let lines: Vec<String> = vec![
        "not-a-number dave".to_string(),
        "".to_string(),
        "42 alice".to_string(),
        "-5 eve".to_string(),
        "99999999999999999999999999 frank".to_string(),
    ];
    let store = WhitelistStore::from_lines(&lines);
    assert!(store.is_whitelisted(UserId(42)));
    assert!(!store.is_whitelisted(UserId(5)));
}

#[test]
fn missing_log_gives_empty_store() {
    let lines: Vec<String> = Vec::new();
    let store = WhitelistStore::from_lines(&lines);
    assert!(!store.is_whitelisted(UserId(0)));
    assert!(!store.is_whitelisted(UserId(42)));
}

#[test]
fn written_entry_reads_back_as_same_user() {
    let mut store = WhitelistStore::new();
    let line = store.prepare_add(UserId(1234567890123), "grace hopper").unwrap();
    store.commit_add(UserId(1234567890123));
    let reloaded = WhitelistStore::from_lines(&vec![line]);
    assert!(reloaded.is_whitelisted(UserId(1234567890123)));
}

#[test]
fn absorb_line_ignores_leading_whitespace() {
    let mut store = WhitelistStore::new();
    store.absorb_line("  42 alice");
    assert!(store.is_whitelisted(UserId(42)));
}
