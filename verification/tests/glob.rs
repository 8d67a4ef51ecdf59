use prompting_client::glob::is_match;

fn m(pattern: &str, path: &str) -> bool {
    let p: Vec<char> = pattern.chars().collect();
    let s: Vec<char> = path.chars().collect();
    is_match(&p, &s)
}

#[test]
fn literal_pattern_matches_only_itself() {
    assert!(m("/home/alice/a.txt", "/home/alice/a.txt"));
    assert!(!m("/home/alice/a.txt", "/home/alice/a.txt2"));
    assert!(!m("/home/alice/a.txt", "/home/alice/a.tx"));
    assert!(!m("/home/alice/a.txt", "/home/alice/b.txt"));
    assert!(m("", ""));
    assert!(!m("", "a"));
    assert!(!m("a", ""));
}

#[test]
fn single_star_stays_within_a_component() {
    assert!(m("/home/alice/docs/*.pdf", "/home/alice/docs/report.pdf"));
    assert!(m("/home/alice/docs/*.pdf", "/home/alice/docs/.pdf"));
    assert!(!m("/home/alice/docs/*.pdf", "/home/alice/docs/sub/report.pdf"));
    assert!(!m("/home/alice/docs/*.pdf", "/home/alice/docs/report.txt"));
    assert!(m("/a/*/c", "/a/b/c"));
    assert!(!m("/a/*/c", "/a/b/d/c"));
    assert!(m("*", "abc"));
    assert!(m("*", ""));
    assert!(!m("*", "a/b"));
}

#[test]
fn double_star_crosses_components() {
    assert!(m("/home/alice/**", "/home/alice/"));
    assert!(m("/home/alice/**", "/home/alice/docs/report.pdf"));
    assert!(m("/home/alice/**", "/home/alice/docs/"));
    assert!(!m("/home/alice/**", "/home/alice"));
    assert!(!m("/home/alice/**", "/home/bob/x"));
    assert!(m("**", "a/b/c"));
    assert!(m("/a/**/z", "/a/b/c/z"));
    assert!(!m("/a/**/z", "/a/b/c/y"));
}

#[test]
fn star_in_a_path_matches_itself() {
    assert!(m("/home/alice/a*b", "/home/alice/a*b"));
    assert!(m("/home/alice/**", "/home/alice/**"));
    assert!(m("/home/alice/***", "/home/alice/***"));
}
