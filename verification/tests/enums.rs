use prompting_client::enums::{Action, HomePatternType, Lifespan};
use prompting_client::prompt_reply_response::PromptReplyType;

#[test]
fn action_names_and_numbers() {
    assert_eq!(Action::Allow.as_str_name(), "ALLOW");
    assert_eq!(Action::Deny.as_str_name(), "DENY");
    assert_eq!(Action::from_str_name("ALLOW"), Some(Action::Allow));
    assert_eq!(Action::from_str_name("DENY"), Some(Action::Deny));
    assert_eq!(Action::from_str_name("allow"), None);
    assert_eq!(Action::from_str_name(""), None);
    assert_eq!(Action::Allow.to_i32(), 0);
    assert_eq!(Action::Deny.to_i32(), 1);
    assert_eq!(Action::from_i32(0), Some(Action::Allow));
    assert_eq!(Action::from_i32(1), Some(Action::Deny));
    assert_eq!(Action::from_i32(2), None);
    assert_eq!(Action::from_i32(-1), None);
}

#[test]
fn lifespan_names_and_numbers() {
    let all = [
        (Lifespan::Single, "SINGLE", 0),
        (Lifespan::Session, "SESSION", 1),
        (Lifespan::Forever, "FOREVER", 2),
    ];
    for (value, name, number) in all {
        assert_eq!(value.as_str_name(), name);
        assert_eq!(Lifespan::from_str_name(name), Some(value));
        assert_eq!(value.to_i32(), number);
        assert_eq!(Lifespan::from_i32(number), Some(value));
    }
    assert_eq!(Lifespan::from_str_name("SINGLE "), None);
    assert_eq!(Lifespan::from_i32(3), None);
}

#[test]
fn home_pattern_type_names_and_numbers() {
    let all = [
        (HomePatternType::RequestedDirectory, "REQUESTED_DIRECTORY", 0),
        (HomePatternType::RequestedFile, "REQUESTED_FILE", 1),
        (HomePatternType::TopLevelDirectory, "TOP_LEVEL_DIRECTORY", 2),
        (HomePatternType::ContainingDirectory, "CONTAINING_DIRECTORY", 3),
        (HomePatternType::HomeDirectory, "HOME_DIRECTORY", 4),
        (HomePatternType::MatchingFileExtension, "MATCHING_FILE_EXTENSION", 5),
        (HomePatternType::RequestedDirectoryContents, "REQUESTED_DIRECTORY_CONTENTS", 6),
    ];
    for (value, name, number) in all {
        assert_eq!(value.as_str_name(), name);
        assert_eq!(HomePatternType::from_str_name(name), Some(value));
        assert_eq!(value.to_i32(), number);
        assert_eq!(HomePatternType::from_i32(number), Some(value));
    }
    assert_eq!(HomePatternType::from_str_name("REQUESTED"), None);
    assert_eq!(HomePatternType::from_i32(7), None);
}

#[test]
fn home_pattern_types_are_ordered_by_number() {
    assert!(HomePatternType::RequestedDirectory < HomePatternType::RequestedFile);
    assert!(HomePatternType::HomeDirectory < HomePatternType::MatchingFileExtension);
    assert!(HomePatternType::MatchingFileExtension < HomePatternType::RequestedDirectoryContents);
}

#[test]
fn prompt_reply_type_names_and_numbers() {
    let all = [
        (PromptReplyType::Success, "SUCCESS", 0),
        (PromptReplyType::Unknown, "UNKNOWN", 1),
        (PromptReplyType::PromptNotFound, "PROMPT_NOT_FOUND", 2),
    ];
    for (value, name, number) in all {
        assert_eq!(value.as_str_name(), name);
        assert_eq!(PromptReplyType::from_str_name(name), Some(value));
        assert_eq!(value.to_i32(), number);
        assert_eq!(PromptReplyType::from_i32(number), Some(value));
    }
    assert_eq!(PromptReplyType::from_str_name("NOT_FOUND"), None);
    assert_eq!(PromptReplyType::from_i32(3), None);
}

#[test]
fn defaults_have_the_number_zero() {
    assert_eq!(Action::default(), Action::Allow);
    assert_eq!(Lifespan::default(), Lifespan::Single);
    assert_eq!(HomePatternType::default(), HomePatternType::RequestedDirectory);
    assert_eq!(PromptReplyType::default(), PromptReplyType::Success);
    assert_eq!(Action::default().to_i32(), 0);
    assert_eq!(Lifespan::default().to_i32(), 0);
    assert_eq!(HomePatternType::default().to_i32(), 0);
    assert_eq!(PromptReplyType::default().to_i32(), 0);
}
