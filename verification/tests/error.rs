use prompting_client::error::{ErrorClass, PromptError};

#[test]
fn errors_fall_into_three_classes() {
    for e in [
        PromptError::PathOutsideHome,
        PromptError::EmptyPermissions,
        PromptError::PermissionNotAvailable,
        PromptError::InitialPermissionNotAvailable,
        PromptError::InvalidPatternChoice,
        PromptError::MissingReply,
        PromptError::UnknownAction,
        PromptError::UnknownLifespan,
    ] {
        assert_eq!(e.class(), ErrorClass::InputValidation);
    }
    assert_eq!(PromptError::PromptNotFound.class(), ErrorClass::NotFound);
    assert_eq!(PromptError::DuplicatePromptId.class(), ErrorClass::Internal);
}

#[test]
fn each_error_has_its_own_message() {
    let all = [
        PromptError::PathOutsideHome,
        PromptError::EmptyPermissions,
        PromptError::PermissionNotAvailable,
        PromptError::InitialPermissionNotAvailable,
        PromptError::InvalidPatternChoice,
        PromptError::MissingReply,
        PromptError::UnknownAction,
        PromptError::UnknownLifespan,
        PromptError::PromptNotFound,
        PromptError::DuplicatePromptId,
    ];
    for (i, a) in all.iter().enumerate() {
        assert!(!a.message().is_empty());
        for b in &all[i + 1..] {
            assert_ne!(a.message(), b.message());
        }
    }
    assert_eq!(PromptError::PromptNotFound.message(), "no such prompt");
}
