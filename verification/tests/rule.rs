use prompting_client::enums::{Action, Lifespan};
use prompting_client::rule::{decide, translate, Decision, Rule};

fn perms(list: &[&str]) -> Vec<String> {
    list.iter().map(|s| s.to_string()).collect()
}

#[test]
fn translate_keeps_the_reply_and_drops_repeats() {
    let rule = translate(
        "/home/alice/docs/**".to_string(),
        perms(&["write", "read", "write"]),
        Lifespan::Forever,
        Action::Allow,
    );
    assert_eq!(
        rule,
        Rule {
            path_pattern: "/home/alice/docs/**".to_string(),
            permissions: perms(&["write", "read"]),
            lifespan: Lifespan::Forever,
            action: Action::Allow,
        }
    );
}

#[test]
fn only_single_rules_are_not_persisted() {
    for (lifespan, kept) in [(Lifespan::Single, false), (Lifespan::Session, true), (Lifespan::Forever, true)] {
        for action in [Action::Allow, Action::Deny] {
            let rule = translate("/p".to_string(), perms(&["read"]), lifespan, action);
            assert_eq!(rule.is_persisted(), kept);
            assert_eq!(rule.lifespan, lifespan);
            assert_eq!(rule.action, action);
        }
    }
}

#[test]
fn allow_always_comes_with_a_rule() {
    for lifespan in [Lifespan::Single, Lifespan::Session, Lifespan::Forever] {
        let decision = decide("/p".to_string(), perms(&["read"]), lifespan, Action::Allow);
        assert_eq!(
            decision,
            Decision::Allowed(translate("/p".to_string(), perms(&["read"]), lifespan, Action::Allow))
        );
    }
}

#[test]
fn deny_comes_with_a_rule_unless_single() {
    assert_eq!(
        decide("/p".to_string(), perms(&["read"]), Lifespan::Single, Action::Deny),
        Decision::Denied(None)
    );
    for lifespan in [Lifespan::Session, Lifespan::Forever] {
        assert_eq!(
            decide("/p".to_string(), perms(&["read", "read"]), lifespan, Action::Deny),
            Decision::Denied(Some(Rule {
                path_pattern: "/p".to_string(),
                permissions: perms(&["read"]),
                lifespan,
                action: Action::Deny,
            }))
        );
    }
}
