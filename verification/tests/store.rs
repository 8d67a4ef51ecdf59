use prompting_client::enums::HomePatternType;
use prompting_client::error::PromptError;
use prompting_client::home_prompt::PatternOption;
use prompting_client::messages::{HomePrompt, MetaData};
use prompting_client::store::{covers_path, is_same_requester, PromptStore};

fn perms(list: &[&str]) -> Vec<String> {
    list.iter().map(|s| s.to_string()).collect()
}

fn meta(id: &str, snap: &str) -> MetaData {
    MetaData {
        prompt_id: id.to_string(),
        snap_name: snap.to_string(),
        store_url: "https://store.example/".to_string() + snap,
        publisher: "Example".to_string(),
        updated_at: "2024-05-01".to_string(),
    }
}

fn prompt(id: &str, snap: &str, path: &str, patterns: &[&str], requested: &[&str]) -> HomePrompt {
    HomePrompt {
        meta_data: meta(id, snap),
        requested_path: path.to_string(),
        home_dir: "/home/alice".to_string(),
        requested_permissions: perms(requested),
        available_permissions: perms(&["read", "write", "execute"]),
        initial_permissions: perms(requested),
        pattern_options: patterns
            .iter()
            .map(|p| PatternOption {
                home_pattern_type: HomePatternType::RequestedFile,
                path_pattern: p.to_string(),
                show_initially: true,
            })
            .collect(),
        initial_pattern_option: 0,
    }
}

#[test]
fn store_starts_empty() {
    let store = PromptStore::new();
    assert_eq!(store.len(), 0);
    assert!(store.is_empty());
    assert!(store.oldest().is_none());
    assert!(store.latest().is_none());
    assert!(!store.contains(&"a".to_string()));
    assert_eq!(store.get(&"a".to_string()), Err(PromptError::PromptNotFound));
}

#[test]
fn insert_refuses_an_identifier_that_is_pending() {
    let mut store = PromptStore::new();
    let a = prompt("a", "editor", "/home/alice/x", &["/home/alice/x"], &["read"]);
    let a2 = prompt("a", "viewer", "/home/alice/y", &["/home/alice/y"], &["write"]);
    assert_eq!(store.insert(a.clone()), Ok(()));
    assert_eq!(store.insert(a2), Err(PromptError::DuplicatePromptId));
    assert_eq!(store.len(), 1);
    assert_eq!(store.get(&"a".to_string()), Ok(&a));
}

#[test]
fn prompts_keep_their_order() {
    let mut store = PromptStore::new();
    let a = prompt("a", "editor", "/home/alice/x", &["/home/alice/x"], &["read"]);
    let b = prompt("b", "editor", "/home/alice/y", &["/home/alice/y"], &["read"]);
    let c = prompt("c", "editor", "/home/alice/z", &["/home/alice/z"], &["read"]);
    store.insert(a.clone()).unwrap();
    store.insert(b.clone()).unwrap();
    store.insert(c.clone()).unwrap();
    assert_eq!(store.len(), 3);
    assert!(!store.is_empty());
    assert_eq!(store.oldest(), Some(&a));
    assert_eq!(store.latest(), Some(&c));
    assert_eq!(store.remove(&"a".to_string()), Ok(a));
    assert_eq!(store.oldest(), Some(&b));
    assert_eq!(store.remove(&"a".to_string()), Err(PromptError::PromptNotFound));
    assert_eq!(store.remove(&"c".to_string()), Ok(c));
    assert_eq!(store.latest(), Some(&b));
    assert_eq!(store.len(), 1);
    assert!(store.contains(&"b".to_string()));
    assert!(!store.contains(&"c".to_string()));
}

#[test]
fn find_mergeable_wants_requester_pattern_and_permissions() {
    let mut store = PromptStore::new();
    let a = prompt("a", "editor", "/home/alice/docs/x", &["/home/alice/docs/x", "/home/alice/docs/**"], &["read"]);
    let b = prompt("b", "editor", "/home/alice/docs/y", &["/home/alice/docs/y", "/home/alice/**"], &["read", "write"]);
    store.insert(a.clone()).unwrap();
    store.insert(b.clone()).unwrap();
    let editor = meta("new", "editor");
    // the oldest prompt that answers wins
    assert_eq!(store.find_mergeable("/home/alice/docs/z", &editor, &perms(&["read"])), Some(&a));
    // permissions beyond those of the first prompt
    assert_eq!(store.find_mergeable("/home/alice/docs/z", &editor, &perms(&["write"])), Some(&b));
    assert_eq!(store.find_mergeable("/home/alice/docs/z", &editor, &perms(&["write", "read"])), Some(&b));
    // a path that only the second prompt covers
    assert_eq!(store.find_mergeable("/home/alice/music/z", &editor, &perms(&["read"])), Some(&b));
    // nothing covers
    assert_eq!(store.find_mergeable("/home/bob/z", &editor, &perms(&["read"])), None);
    assert_eq!(store.find_mergeable("/home/alice/docs/z", &editor, &perms(&["execute"])), None);
    // another requester
    assert_eq!(store.find_mergeable("/home/alice/docs/z", &meta("new", "viewer"), &perms(&["read"])), None);
}

#[test]
fn requesters_are_told_apart_by_name_store_and_publisher() {
    let a = meta("1", "editor");
    let mut b = meta("2", "editor");
    b.updated_at = "later".to_string();
    assert!(is_same_requester(&a, &b));
    let mut c = meta("1", "editor");
    c.publisher = "Other".to_string();
    assert!(!is_same_requester(&a, &c));
    let mut d = meta("1", "editor");
    d.store_url = "https://elsewhere.example".to_string();
    assert!(!is_same_requester(&a, &d));
    assert!(!is_same_requester(&a, &meta("1", "viewer")));
}

#[test]
fn a_path_is_covered_by_any_matching_pattern() {
    let p = prompt("a", "editor", "/home/alice/x", &["/home/alice/x", "/home/alice/*.txt"], &["read"]);
    let path = |s: &str| -> Vec<char> { s.chars().collect() };
    assert!(covers_path(&p.pattern_options, &path("/home/alice/x")));
    assert!(covers_path(&p.pattern_options, &path("/home/alice/notes.txt")));
    assert!(!covers_path(&p.pattern_options, &path("/home/alice/y")));
    assert!(!covers_path(&Vec::new(), &path("/home/alice/x")));
}
