use prompting_client::enums::HomePatternType;
use prompting_client::error::PromptError;
use prompting_client::glob::is_match;
use prompting_client::resolver::{classify, is_within, resolve};

fn perms(list: &[&str]) -> Vec<String> {
    list.iter().map(|s| s.to_string()).collect()
}

fn shape(path: &str, home: &str) -> Vec<(HomePatternType, String, bool)> {
    let res = resolve(path, home, &perms(&["read"]), &perms(&["read", "write"])).unwrap();
    assert_eq!(res.initial_pattern_option, 0);
    res.pattern_options
        .into_iter()
        .map(|o| (o.home_pattern_type, o.path_pattern, o.show_initially))
        .collect()
}

fn opt(kind: HomePatternType, pattern: &str, shown: bool) -> (HomePatternType, String, bool) {
    (kind, pattern.to_string(), shown)
}

fn glob(pattern: &str, path: &str) -> bool {
    let p: Vec<char> = pattern.chars().collect();
    let s: Vec<char> = path.chars().collect();
    is_match(&p, &s)
}

#[test]
fn file_two_levels_deep() {
    assert_eq!(
        shape("/home/alice/docs/report.pdf", "/home/alice"),
        vec![
            opt(HomePatternType::RequestedFile, "/home/alice/docs/report.pdf", true),
            opt(HomePatternType::MatchingFileExtension, "/home/alice/docs/*.pdf", false),
            opt(HomePatternType::ContainingDirectory, "/home/alice/docs/**", false),
            opt(HomePatternType::HomeDirectory, "/home/alice/**", true),
        ]
    );
}

#[test]
fn file_three_levels_deep_has_a_top_level_directory() {
    assert_eq!(
        shape("/home/alice/docs/work/report.tar.gz", "/home/alice"),
        vec![
            opt(HomePatternType::RequestedFile, "/home/alice/docs/work/report.tar.gz", true),
            opt(HomePatternType::MatchingFileExtension, "/home/alice/docs/work/*.gz", false),
            opt(HomePatternType::ContainingDirectory, "/home/alice/docs/work/**", false),
            opt(HomePatternType::TopLevelDirectory, "/home/alice/docs/**", false),
            opt(HomePatternType::HomeDirectory, "/home/alice/**", true),
        ]
    );
}

#[test]
fn file_directly_in_home() {
    assert_eq!(
        shape("/home/alice/notes.txt", "/home/alice"),
        vec![
            opt(HomePatternType::RequestedFile, "/home/alice/notes.txt", true),
            opt(HomePatternType::MatchingFileExtension, "/home/alice/*.txt", false),
            opt(HomePatternType::HomeDirectory, "/home/alice/**", true),
        ]
    );
}

#[test]
fn names_without_an_extension() {
    for name in ["Makefile", ".bashrc", "ends.", "..."] {
        let path = format!("/home/alice/{}", name);
        assert_eq!(
            shape(&path, "/home/alice"),
            vec![
                opt(HomePatternType::RequestedFile, &path, true),
                opt(HomePatternType::HomeDirectory, "/home/alice/**", true),
            ],
            "{}",
            name
        );
    }
    assert_eq!(
        shape("/home/alice/.config.bak", "/home/alice"),
        vec![
            opt(HomePatternType::RequestedFile, "/home/alice/.config.bak", true),
            opt(HomePatternType::MatchingFileExtension, "/home/alice/*.bak", false),
            opt(HomePatternType::HomeDirectory, "/home/alice/**", true),
        ]
    );
}

#[test]
fn directory_requests() {
    assert_eq!(
        shape("/home/alice/docs/", "/home/alice"),
        vec![
            opt(HomePatternType::RequestedDirectory, "/home/alice/docs/", true),
            opt(HomePatternType::RequestedDirectoryContents, "/home/alice/docs/**", false),
            opt(HomePatternType::HomeDirectory, "/home/alice/**", true),
        ]
    );
    assert_eq!(
        shape("/home/alice/docs/work/", "/home/alice"),
        vec![
            opt(HomePatternType::RequestedDirectory, "/home/alice/docs/work/", true),
            opt(HomePatternType::RequestedDirectoryContents, "/home/alice/docs/work/**", false),
            opt(HomePatternType::ContainingDirectory, "/home/alice/docs/**", false),
            opt(HomePatternType::HomeDirectory, "/home/alice/**", true),
        ]
    );
    assert_eq!(
        shape("/home/alice/a/b/c.d/", "/home/alice"),
        vec![
            opt(HomePatternType::RequestedDirectory, "/home/alice/a/b/c.d/", true),
            opt(HomePatternType::RequestedDirectoryContents, "/home/alice/a/b/c.d/**", false),
            opt(HomePatternType::ContainingDirectory, "/home/alice/a/b/**", false),
            opt(HomePatternType::TopLevelDirectory, "/home/alice/a/**", false),
            opt(HomePatternType::HomeDirectory, "/home/alice/**", true),
        ]
    );
}

#[test]
fn paths_are_cut_by_characters_not_bytes() {
    assert_eq!(
        shape("/home/zoë/dökumente/naïve/résumé.pdf", "/home/zoë"),
        vec![
            opt(HomePatternType::RequestedFile, "/home/zoë/dökumente/naïve/résumé.pdf", true),
            opt(HomePatternType::MatchingFileExtension, "/home/zoë/dökumente/naïve/*.pdf", false),
            opt(HomePatternType::ContainingDirectory, "/home/zoë/dökumente/naïve/**", false),
            opt(HomePatternType::TopLevelDirectory, "/home/zoë/dökumente/**", false),
            opt(HomePatternType::HomeDirectory, "/home/zoë/**", true),
        ]
    );
}

#[test]
fn home_directory_may_end_in_a_slash_or_be_the_root() {
    assert_eq!(
        shape("/home/alice/docs/report.pdf", "/home/alice/"),
        shape("/home/alice/docs/report.pdf", "/home/alice")
    );
    assert_eq!(
        shape("/srv/data.csv", "/"),
        vec![
            opt(HomePatternType::RequestedFile, "/srv/data.csv", true),
            opt(HomePatternType::MatchingFileExtension, "/srv/*.csv", false),
            opt(HomePatternType::ContainingDirectory, "/srv/**", false),
            opt(HomePatternType::HomeDirectory, "/**", true),
        ]
    );
}

#[test]
fn a_file_named_like_the_home_pattern_keeps_its_place() {
    assert_eq!(
        shape("/home/alice/**", "/home/alice"),
        vec![opt(HomePatternType::RequestedFile, "/home/alice/**", true)]
    );
    assert_eq!(
        shape("/home/alice/docs/**", "/home/alice"),
        vec![
            opt(HomePatternType::RequestedFile, "/home/alice/docs/**", true),
            opt(HomePatternType::HomeDirectory, "/home/alice/**", true),
        ]
    );
}

#[test]
fn paths_outside_home_are_refused() {
    let p = perms(&["read"]);
    for (path, home) in [
        ("/etc/passwd", "/home/alice"),
        ("/home/alice", "/home/alice"),
        ("/home/alice/", "/home/alice"),
        ("/home/alicia/x", "/home/alice"),
        ("/home/alice//x", "/home/alice"),
        ("/home/alice/../bob/x", "/home/alice"),
        ("/home/alice/./x", "/home/alice"),
        ("/home/alice/x/..", "/home/alice"),
        ("/home/alice/x//", "/home/alice"),
        ("home/alice/x", "home/alice"),
        ("/home/alice/x", ""),
        ("/home/alice/x", "/home/alice//"),
        ("", "/home/alice"),
    ] {
        assert_eq!(resolve(path, home, &p, &p), Err(PromptError::PathOutsideHome), "{} in {}", path, home);
        let pc: Vec<char> = path.chars().collect();
        let hc: Vec<char> = home.chars().collect();
        assert!(!is_within(&pc, &hc));
    }
}

#[test]
fn permissions_are_checked_after_the_path() {
    assert_eq!(
        resolve("/home/alice/x", "/home/alice", &perms(&[]), &perms(&["read"])),
        Err(PromptError::EmptyPermissions)
    );
    assert_eq!(
        resolve("/home/alice/x", "/home/alice", &perms(&["read", "write"]), &perms(&["read"])),
        Err(PromptError::PermissionNotAvailable)
    );
    assert_eq!(
        resolve("/etc/x", "/home/alice", &perms(&[]), &perms(&["read"])),
        Err(PromptError::PathOutsideHome)
    );
}

#[test]
fn options_do_not_depend_on_the_permissions() {
    let a = resolve("/home/alice/docs/a.txt", "/home/alice", &perms(&["read"]), &perms(&["read"]));
    let b = resolve(
        "/home/alice/docs/a.txt",
        "/home/alice",
        &perms(&["write", "read"]),
        &perms(&["read", "write", "execute"]),
    );
    assert_eq!(a, b);
}

#[test]
fn resolving_twice_gives_the_same_options() {
    let p = perms(&["read"]);
    for path in ["/home/alice/docs/report.pdf", "/home/alice/a/b/c/", "/home/alice/x", "/etc/x"] {
        assert_eq!(resolve(path, "/home/alice", &p, &p), resolve(path, "/home/alice", &p, &p));
    }
}

#[test]
fn every_offered_pattern_matches_the_request() {
    for path in [
        "/home/alice/docs/report.pdf",
        "/home/alice/a/b/c/d.e.f",
        "/home/alice/a/b/c/",
        "/home/alice/x",
        "/home/alice/x/",
        "/home/alice/*/*.txt",
        "/home/alice/**",
        "/home/alice/a*b/c**d/",
        "/home/alice/docs*/**/x.*",
    ] {
        let options = shape(path, "/home/alice");
        assert!(!options.is_empty());
        for (_, pattern, _) in &options {
            assert!(glob(pattern, path), "{} against {}", pattern, path);
        }
    }
}

#[test]
fn home_directory_is_offered_last_and_the_request_first() {
    for path in [
        "/home/alice/docs/report.pdf",
        "/home/alice/a/b/c/d.e.f",
        "/home/alice/a/b/c/",
        "/home/alice/x",
        "/home/alice/x/",
    ] {
        let options = shape(path, "/home/alice");
        assert_eq!(options.last().unwrap(), &opt(HomePatternType::HomeDirectory, "/home/alice/**", true));
        let first = &options[0];
        assert_eq!(first.1, path);
        assert!(first.2);
        assert_eq!(first.0, classify(path));
    }
}

#[test]
fn a_single_path_is_a_file_or_a_directory() {
    assert_eq!(classify("/home/alice/docs/"), HomePatternType::RequestedDirectory);
    assert_eq!(classify("/home/alice/docs"), HomePatternType::RequestedFile);
    assert_eq!(classify("/"), HomePatternType::RequestedDirectory);
    assert_eq!(classify(""), HomePatternType::RequestedFile);
}
