use prompting_client::enums::{Action, HomePatternType, Lifespan};
use prompting_client::error::PromptError;
use prompting_client::home_prompt::PatternOption;
use prompting_client::messages::{copy_options, copy_texts, HomePrompt, HomePromptReply, MetaData, PromptReply};
use prompting_client::text::{chars_of, same_chars, same_text};

fn answer() -> Option<prompting_client::prompt_reply::PromptReply> {
    Some(prompting_client::prompt_reply::PromptReply::HomePromptReply(HomePromptReply {
        path_pattern: "/home/alice/**".to_string(),
        permissions: vec!["read".to_string()],
    }))
}

#[test]
fn reply_from_wire_numbers() {
    assert_eq!(
        PromptReply::from_wire("id-1".to_string(), 1, 2, answer()),
        Ok(PromptReply {
            prompt_id: "id-1".to_string(),
            action: Action::Deny,
            lifespan: Lifespan::Forever,
            prompt_reply: answer(),
        })
    );
    assert_eq!(
        PromptReply::from_wire("id-1".to_string(), 0, 0, None),
        Ok(PromptReply {
            prompt_id: "id-1".to_string(),
            action: Action::Allow,
            lifespan: Lifespan::Single,
            prompt_reply: None,
        })
    );
}

#[test]
fn reply_from_unknown_numbers() {
    assert_eq!(PromptReply::from_wire("id-1".to_string(), 2, 0, answer()), Err(PromptError::UnknownAction));
    assert_eq!(PromptReply::from_wire("id-1".to_string(), 0, 3, answer()), Err(PromptError::UnknownLifespan));
    assert_eq!(PromptReply::from_wire("id-1".to_string(), -1, 7, answer()), Err(PromptError::UnknownAction));
}

#[test]
fn duplicates_are_equal_to_their_originals() {
    let option = PatternOption {
        home_pattern_type: HomePatternType::ContainingDirectory,
        path_pattern: "/home/alice/docs/**".to_string(),
        show_initially: false,
    };
    assert_eq!(option.duplicate(), option);
    let meta = MetaData {
        prompt_id: "id".to_string(),
        snap_name: "editor".to_string(),
        store_url: "https://store.example/editor".to_string(),
        publisher: "Example".to_string(),
        updated_at: "2024-05-01".to_string(),
    };
    assert_eq!(meta.duplicate(), meta);
    let prompt = HomePrompt {
        meta_data: meta,
        requested_path: "/home/alice/docs/a".to_string(),
        home_dir: "/home/alice".to_string(),
        requested_permissions: vec!["read".to_string()],
        available_permissions: vec!["read".to_string(), "write".to_string()],
        initial_permissions: vec![],
        pattern_options: vec![option.clone(), option.clone()],
        initial_pattern_option: 1,
    };
    assert_eq!(prompt.duplicate(), prompt);
    assert_eq!(copy_options(&prompt.pattern_options), prompt.pattern_options);
    assert_eq!(copy_texts(&prompt.available_permissions), prompt.available_permissions);
}

#[test]
fn text_helpers() {
    assert_eq!(chars_of("a/é*"), vec!['a', '/', 'é', '*']);
    assert_eq!(chars_of(""), Vec::<char>::new());
    assert!(same_text("abc", "abc"));
    assert!(!same_text("abc", "abd"));
    assert!(!same_text("abc", "ab"));
    assert!(same_text("", ""));
    assert!(same_chars(&vec!['a'], &vec!['a']));
    assert!(!same_chars(&vec!['a'], &vec!['b']));
    assert!(!same_chars(&vec!['a'], &vec![]));
}

#[test]
fn empty_messages() {
    let prompt = HomePrompt::default();
    assert_eq!(prompt.requested_path, "");
    assert!(prompt.pattern_options.is_empty());
    assert_eq!(prompt.initial_pattern_option, 0);
    assert_eq!(prompt.meta_data, MetaData::default());
    let reply = PromptReply::default();
    assert_eq!(reply.action, Action::Allow);
    assert_eq!(reply.lifespan, Lifespan::Single);
    assert_eq!(reply.prompt_reply, None);
    assert_eq!(PatternOption::default().home_pattern_type, HomePatternType::RequestedDirectory);
}
