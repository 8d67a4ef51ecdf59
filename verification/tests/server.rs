use prompting_client::app_armor_prompting_server::{AppArmorPromptingServer, ReplyReport, Request, Response};
use prompting_client::engine::PromptEngine;
use prompting_client::enums::{Action, HomePatternType, Lifespan};
use prompting_client::get_current_prompt_response::Prompt;
use prompting_client::messages::{
    GetCurrentPromptResponse, HomePromptReply, MetaData, PromptReply, PromptReplyResponse,
    ResolveHomePatternTypeResponse, SetLoggingLevelResponse,
};
use prompting_client::prompt_reply_response::PromptReplyType;
use prompting_client::rule::{Decision, Rule};

fn perms(list: &[&str]) -> Vec<String> {
    list.iter().map(|s| s.to_string()).collect()
}

fn server_with(ids: &[&str]) -> AppArmorPromptingServer {
    let mut server = AppArmorPromptingServer::new(PromptEngine::new());
    for id in ids {
        server
            .inner
            .request(
                MetaData {
                    prompt_id: id.to_string(),
                    snap_name: format!("snap-{}", id),
                    store_url: String::new(),
                    publisher: String::new(),
                    updated_at: String::new(),
                },
                format!("/home/alice/{}/file.txt", id),
                perms(&["read"]),
                perms(&["read", "write"]),
                perms(&["read"]),
                "/home/alice".to_string(),
            )
            .unwrap();
    }
    server
}

fn answer(id: &str, action: Action, lifespan: Lifespan, pattern: &str) -> PromptReply {
    PromptReply {
        prompt_id: id.to_string(),
        action,
        lifespan,
        prompt_reply: Some(prompting_client::prompt_reply::PromptReply::HomePromptReply(HomePromptReply {
            path_pattern: pattern.to_string(),
            permissions: perms(&["read"]),
        })),
    }
}

#[test]
fn no_prompt_is_shown_when_none_is_pending() {
    let server = server_with(&[]);
    assert_eq!(server.get_current_prompt(), GetCurrentPromptResponse { prompt: None });
    assert_eq!(server.logging_level, "");
}

#[test]
fn the_oldest_prompt_is_shown() {
    let mut server = server_with(&["a", "b"]);
    match server.get_current_prompt().prompt {
        Some(Prompt::HomePrompt(prompt)) => {
            assert_eq!(prompt.meta_data.prompt_id, "a");
            assert_eq!(prompt.requested_path, "/home/alice/a/file.txt");
            assert_eq!(&prompt, server.inner.store().oldest().unwrap());
        }
        None => panic!("a prompt is pending"),
    }
    let report = server.reply_to_prompt(answer("a", Action::Allow, Lifespan::Single, "/home/alice/a/file.txt"));
    assert_eq!(report.response.prompt_reply_type, PromptReplyType::Success);
    match server.get_current_prompt().prompt {
        Some(Prompt::HomePrompt(prompt)) => assert_eq!(prompt.meta_data.prompt_id, "b"),
        None => panic!("a prompt is pending"),
    }
}

#[test]
fn replies_are_reported_by_kind() {
    let mut server = server_with(&["a"]);
    let report = server.reply_to_prompt(answer("zzz", Action::Allow, Lifespan::Single, "/home/alice/a/file.txt"));
    assert_eq!(
        report,
        ReplyReport {
            response: PromptReplyResponse {
                prompt_reply_type: PromptReplyType::PromptNotFound,
                message: "no such prompt".to_string(),
            },
            decision: None,
        }
    );
    let report = server.reply_to_prompt(answer("a", Action::Allow, Lifespan::Single, "/etc/**"));
    assert_eq!(
        report,
        ReplyReport {
            response: PromptReplyResponse {
                prompt_reply_type: PromptReplyType::Unknown,
                message: "the chosen pattern is not among the offered ones".to_string(),
            },
            decision: None,
        }
    );
    assert_eq!(server.inner.store().len(), 1);
    let report = server.reply_to_prompt(answer("a", Action::Allow, Lifespan::Session, "/home/alice/a/*.txt"));
    assert_eq!(
        report,
        ReplyReport {
            response: PromptReplyResponse { prompt_reply_type: PromptReplyType::Success, message: String::new() },
            decision: Some(Decision::Allowed(Rule {
                path_pattern: "/home/alice/a/*.txt".to_string(),
                permissions: perms(&["read"]),
                lifespan: Lifespan::Session,
                action: Action::Allow,
            })),
        }
    );
    assert!(server.inner.store().is_empty());
}

#[test]
fn a_single_path_is_classified() {
    let server = server_with(&[]);
    assert_eq!(
        server.resolve_home_pattern_type("/home/alice/docs/".to_string()),
        ResolveHomePatternTypeResponse { home_pattern_type: HomePatternType::RequestedDirectory }
    );
    assert_eq!(
        server.resolve_home_pattern_type("/home/alice/docs/a.txt".to_string()),
        ResolveHomePatternTypeResponse { home_pattern_type: HomePatternType::RequestedFile }
    );
}

#[test]
fn the_logging_level_is_kept() {
    let mut server = server_with(&["a"]);
    assert_eq!(
        server.set_logging_level("debug".to_string()),
        SetLoggingLevelResponse { current: "debug".to_string() }
    );
    assert_eq!(server.logging_level, "debug");
    assert_eq!(server.inner.store().len(), 1);
}

#[test]
fn call_goes_to_the_operation_of_the_request() {
    let mut server = server_with(&["a"]);
    match server.call(Request::GetCurrentPrompt) {
        Response::GetCurrentPrompt(shown) => assert_eq!(shown, server.get_current_prompt()),
        other => panic!("unexpected response {:?}", other),
    }
    match server.call(Request::ResolveHomePatternType("/x/".to_string())) {
        Response::ResolveHomePatternType(r) => assert_eq!(r.home_pattern_type, HomePatternType::RequestedDirectory),
        other => panic!("unexpected response {:?}", other),
    }
    match server.call(Request::SetLoggingLevel("warn".to_string())) {
        Response::SetLoggingLevel(r) => assert_eq!(r.current, "warn"),
        other => panic!("unexpected response {:?}", other),
    }
    assert_eq!(server.logging_level, "warn");
    match server.call(Request::ReplyToPrompt(answer("a", Action::Deny, Lifespan::Single, "/home/alice/**"))) {
        Response::ReplyToPrompt(report) => {
            assert_eq!(report.response.prompt_reply_type, PromptReplyType::Success);
            assert_eq!(report.decision, Some(Decision::Denied(None)));
        }
        other => panic!("unexpected response {:?}", other),
    }
    assert!(server.inner.store().is_empty());
}
