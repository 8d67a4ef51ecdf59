//! The prompting service: the four operations of the protocol, carried out
//! on a prompt engine.
//!
//! The transport decodes a request, hands it to `call`, and encodes what
//! comes back. A decision that a reply leads to goes on to the mediator.

use vstd::prelude::*;
use crate::engine::{reply_outcome, store_after_reply, PromptEngine};
use crate::error::PromptError;
use crate::get_current_prompt_response::Prompt;
use crate::messages::{
    GetCurrentPromptResponse, HomePromptView, PromptReply, PromptReplyResponse,
    ResolveHomePatternTypeResponse, SetLoggingLevelResponse,
};
use crate::prompt_reply_response::PromptReplyType;
use crate::resolver::{classify, kind_of};
use crate::rule::{Decision, DecisionView};

verus! {

/// A decoded request to the service.
#[derive(Clone, Debug, PartialEq, Eq)]
pub enum Request {
    GetCurrentPrompt,
    ReplyToPrompt(PromptReply),
    ResolveHomePatternType(String),
    SetLoggingLevel(String),
}

/// What the service says of a reply, and what follows from it.
#[derive(Clone, Debug, PartialEq, Eq)]
pub struct ReplyReport {
    /// The response for the client that sent the reply.
    pub response: PromptReplyResponse,
    /// The decision for the mediator, where the reply was accepted.
    pub decision: Option<Decision>,
}

/// The service's answer to a request.
#[derive(Clone, Debug, PartialEq, Eq)]
pub enum Response {
    GetCurrentPrompt(GetCurrentPromptResponse),
    ReplyToPrompt(ReplyReport),
    ResolveHomePatternType(ResolveHomePatternTypeResponse),
    SetLoggingLevel(SetLoggingLevelResponse),
}

/// Whether the response shows the prompt that has been pending longest, or
/// nothing where no prompt is pending.
pub open spec fn shows_oldest(store: Seq<HomePromptView>, response: GetCurrentPromptResponse)
    -> bool {
    match response.prompt {
        Some(Prompt::HomePrompt(prompt)) => store.len() > 0 && prompt@ == store.first(),
        None => store.len() == 0,
    }
}

/// How the outcome of a reply is reported to the client: success, or that
/// the prompt was not found, or, for any other failure, "unknown" with the
/// failure's text.
pub open spec fn reply_type_for(outcome: Result<DecisionView, PromptError>) -> PromptReplyType {
    match outcome {
        Ok(_) => PromptReplyType::Success,
        Err(PromptError::PromptNotFound) => PromptReplyType::PromptNotFound,
        Err(_) => PromptReplyType::Unknown,
    }
}

/// Whether the report is the one for the outcome of a reply.
pub open spec fn reports(outcome: Result<DecisionView, PromptError>, report: ReplyReport) -> bool {
    &&& report.response.prompt_reply_type == reply_type_for(outcome)
    &&& match outcome {
        Ok(decision) => {
            &&& report.response.message@.len() == 0
            &&& report.decision is Some
            &&& report.decision->0@ == decision
        },
        Err(error) => {
            &&& report.response.message@ == error.text()
            &&& report.decision is None
        },
    }
}

/// The prompting service.
pub struct AppArmorPromptingServer {
    /// The engine that holds the pending prompts. The mediator hands its
    /// access requests to it.
    pub inner: PromptEngine,
    /// The logging level in force.
    pub logging_level: String,
}

impl AppArmorPromptingServer {
    /// A service on the given engine, with no logging level set.
    pub fn new(inner: PromptEngine) -> (server: AppArmorPromptingServer)
        ensures
            server.inner == inner,
            server.logging_level@.len() == 0,
    {
        AppArmorPromptingServer { inner, logging_level: String::new() }
    }

    /// The prompt to show: the one that has been pending longest.
    pub fn get_current_prompt(&self) -> (response: GetCurrentPromptResponse)
        ensures
            shows_oldest(self.inner@, response),
    {
        match self.inner.store().oldest() {
            Some(prompt) => GetCurrentPromptResponse {
                prompt: Some(Prompt::HomePrompt(prompt.duplicate())),
            },
            None => GetCurrentPromptResponse { prompt: None },
        }
    }

    /// Hands a reply to the engine and reports how it was received.
    pub fn reply_to_prompt(&mut self, reply: PromptReply) -> (report: ReplyReport)
        ensures
            reports(reply_outcome(old(self).inner@, reply@), report),
            final(self).inner@ == store_after_reply(old(self).inner@, reply@),
            final(self).logging_level == old(self).logging_level,
    {
        match self.inner.reply(reply) {
            Ok(decision) => ReplyReport {
                response: PromptReplyResponse {
                    prompt_reply_type: PromptReplyType::Success,
                    message: String::new(),
                },
                decision: Some(decision),
            },
            Err(error) => {
                let prompt_reply_type = match error {
                    PromptError::PromptNotFound => PromptReplyType::PromptNotFound,
                    _ => PromptReplyType::Unknown,
                };
                ReplyReport {
                    response: PromptReplyResponse {
                        prompt_reply_type,
                        message: error.message().to_owned(),
                    },
                    decision: None,
                }
            },
        }
    }

    /// Says what a path by itself stands for.
    pub fn resolve_home_pattern_type(&self, path: String) -> (response:
        ResolveHomePatternTypeResponse)
        ensures
            response.home_pattern_type == kind_of(path@),
    {
        ResolveHomePatternTypeResponse { home_pattern_type: classify(path.as_str()) }
    }

    /// Sets the logging level and says which level is now in force.
    pub fn set_logging_level(&mut self, level: String) -> (response: SetLoggingLevelResponse)
        ensures
            response.current@ == level@,
            final(self).logging_level@ == level@,
            final(self).inner == old(self).inner,
    {
        let current: String = level.clone();
        self.logging_level = level;
        SetLoggingLevelResponse { current }
    }

    /// Carries out a request: each kind of request goes to the operation of
    /// its name and comes back with that operation's response.
    pub fn call(&mut self, request: Request) -> (response: Response)
        ensures
            match request {
                Request::GetCurrentPrompt => {
                    &&& response matches Response::GetCurrentPrompt(shown)
                    &&& shows_oldest(old(self).inner@, shown)
                    &&& *final(self) == *old(self)
                },
                Request::ReplyToPrompt(reply) => {
                    &&& response matches Response::ReplyToPrompt(report)
                    &&& reports(reply_outcome(old(self).inner@, reply@), report)
                    &&& final(self).inner@ == store_after_reply(old(self).inner@, reply@)
                    &&& final(self).logging_level == old(self).logging_level
                },
                Request::ResolveHomePatternType(path) => {
                    &&& response matches Response::ResolveHomePatternType(resolved)
                    &&& resolved.home_pattern_type == kind_of(path@)
                    &&& *final(self) == *old(self)
                },
                Request::SetLoggingLevel(level) => {
                    &&& response matches Response::SetLoggingLevel(set)
                    &&& set.current@ == level@
                    &&& final(self).logging_level@ == level@
                    &&& final(self).inner == old(self).inner
                },
            },
    {
        match request {
            Request::GetCurrentPrompt => Response::GetCurrentPrompt(self.get_current_prompt()),
            Request::ReplyToPrompt(reply) => Response::ReplyToPrompt(self.reply_to_prompt(reply)),
            Request::ResolveHomePatternType(path) => Response::ResolveHomePatternType(
                self.resolve_home_pattern_type(path),
            ),
            Request::SetLoggingLevel(level) => Response::SetLoggingLevel(
                self.set_logging_level(level),
            ),
        }
    }
}

} // verus!
