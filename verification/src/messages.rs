//! The messages of the prompting protocol.

use vstd::prelude::*;
use crate::enums::{Action, HomePatternType, Lifespan};
use crate::error::PromptError;
use crate::get_current_prompt_response::Prompt;
use crate::home_prompt::{options_view, PatternOption, PatternOptionView};
use crate::permissions::texts;
use crate::prompt_reply_response::PromptReplyType;

verus! {

/// Who asks, and under which identifier the prompt is known. The engine
/// passes all of it through; it reads the identifier, and the name, store
/// and publisher to tell requesters apart.
#[derive(Clone, Debug, Default, PartialEq, Eq)]
pub struct MetaData {
    pub prompt_id: String,
    pub snap_name: String,
    pub store_url: String,
    pub publisher: String,
    pub updated_at: String,
}

/// Metadata as a mathematical value.
pub struct MetaDataView {
    pub prompt_id: Seq<char>,
    pub snap_name: Seq<char>,
    pub store_url: Seq<char>,
    pub publisher: Seq<char>,
    pub updated_at: Seq<char>,
}

impl View for MetaData {
    type V = MetaDataView;

    open spec fn view(&self) -> MetaDataView {
        MetaDataView {
            prompt_id: self.prompt_id@,
            snap_name: self.snap_name@,
            store_url: self.store_url@,
            publisher: self.publisher@,
            updated_at: self.updated_at@,
        }
    }
}

impl MetaData {
    /// A copy of the metadata.
    pub fn duplicate(&self) -> (copy: MetaData)
        ensures
            copy@ == self@,
    {
        MetaData {
            prompt_id: self.prompt_id.clone(),
            snap_name: self.snap_name.clone(),
            store_url: self.store_url.clone(),
            publisher: self.publisher.clone(),
            updated_at: self.updated_at.clone(),
        }
    }
}

/// A pending request for access to a path under the user's home directory.
#[derive(Clone, Debug, Default, PartialEq, Eq)]
pub struct HomePrompt {
    pub meta_data: MetaData,
    /// The absolute path that was asked for.
    pub requested_path: String,
    /// The home directory of the user who is asked.
    pub home_dir: String,
    /// What the requester wants to do with the path.
    pub requested_permissions: Vec<String>,
    /// What the user may grant.
    pub available_permissions: Vec<String>,
    /// What is ticked before the user chooses.
    pub initial_permissions: Vec<String>,
    /// The patterns to choose from, the most specific first.
    pub pattern_options: Vec<PatternOption>,
    /// The position of the pattern that is selected before the user chooses.
    pub initial_pattern_option: i32,
}

/// A home prompt as a mathematical value.
pub struct HomePromptView {
    pub meta_data: MetaDataView,
    pub requested_path: Seq<char>,
    pub home_dir: Seq<char>,
    pub requested_permissions: Seq<Seq<char>>,
    pub available_permissions: Seq<Seq<char>>,
    pub initial_permissions: Seq<Seq<char>>,
    pub pattern_options: Seq<PatternOptionView>,
    pub initial_pattern_option: int,
}

impl View for HomePrompt {
    type V = HomePromptView;

    open spec fn view(&self) -> HomePromptView {
        HomePromptView {
            meta_data: self.meta_data@,
            requested_path: self.requested_path@,
            home_dir: self.home_dir@,
            requested_permissions: texts(self.requested_permissions@),
            available_permissions: texts(self.available_permissions@),
            initial_permissions: texts(self.initial_permissions@),
            pattern_options: options_view(self.pattern_options@),
            initial_pattern_option: self.initial_pattern_option as int,
        }
    }
}

/// A copy of a list of strings.
pub fn copy_texts(list: &Vec<String>) -> (copy: Vec<String>)
    ensures
        texts(copy@) == texts(list@),
{
    let mut copy: Vec<String> = Vec::new();
    let mut i: usize = 0;
    while i < list.len()
        invariant
            i <= list.len(),
            copy.len() == i,
            forall|k: int| 0 <= k < i ==> copy@[k]@ == list@[k]@,
        decreases list.len() - i,
    {
        copy.push(list[i].clone());
        i = i + 1;
    }
    copy
}

/// A copy of a list of pattern options.
pub fn copy_options(list: &Vec<PatternOption>) -> (copy: Vec<PatternOption>)
    ensures
        options_view(copy@) == options_view(list@),
{
    let mut copy: Vec<PatternOption> = Vec::new();
    let mut i: usize = 0;
    while i < list.len()
        invariant
            i <= list.len(),
            copy.len() == i,
            forall|k: int| 0 <= k < i ==> copy@[k]@ == list@[k]@,
        decreases list.len() - i,
    {
        copy.push(list[i].duplicate());
        i = i + 1;
    }
    copy
}

impl HomePrompt {
    /// The identifier of the prompt.
    pub open spec fn id(self) -> Seq<char> {
        self.meta_data.prompt_id@
    }

    /// A copy of the prompt.
    pub fn duplicate(&self) -> (copy: HomePrompt)
        ensures
            copy@ == self@,
    {
        HomePrompt {
            meta_data: self.meta_data.duplicate(),
            requested_path: self.requested_path.clone(),
            home_dir: self.home_dir.clone(),
            requested_permissions: copy_texts(&self.requested_permissions),
            available_permissions: copy_texts(&self.available_permissions),
            initial_permissions: copy_texts(&self.initial_permissions),
            pattern_options: copy_options(&self.pattern_options),
            initial_pattern_option: self.initial_pattern_option,
        }
    }
}

/// The user's answer to a home prompt: the pattern and the permissions that
/// the decision covers.
#[derive(Clone, Debug, Default, PartialEq, Eq)]
pub struct HomePromptReply {
    pub path_pattern: String,
    pub permissions: Vec<String>,
}

/// The answer to a home prompt as a mathematical value.
pub struct HomePromptReplyView {
    pub path_pattern: Seq<char>,
    pub permissions: Seq<Seq<char>>,
}

impl View for HomePromptReply {
    type V = HomePromptReplyView;

    open spec fn view(&self) -> HomePromptReplyView {
        HomePromptReplyView {
            path_pattern: self.path_pattern@,
            permissions: texts(self.permissions@),
        }
    }
}

/// A user's decision on a prompt.
#[derive(Clone, Debug, Default, PartialEq, Eq)]
pub struct PromptReply {
    /// The prompt that is answered.
    pub prompt_id: String,
    pub action: Action,
    pub lifespan: Lifespan,
    /// The answer, by kind of prompt.
    pub prompt_reply: Option<crate::prompt_reply::PromptReply>,
}

/// A reply as a mathematical value.
pub struct PromptReplyView {
    pub prompt_id: Seq<char>,
    pub action: Action,
    pub lifespan: Lifespan,
    pub answer: Option<HomePromptReplyView>,
}

impl View for PromptReply {
    type V = PromptReplyView;

    open spec fn view(&self) -> PromptReplyView {
        PromptReplyView {
            prompt_id: self.prompt_id@,
            action: self.action,
            lifespan: self.lifespan,
            answer: match self.prompt_reply {
                Some(crate::prompt_reply::PromptReply::HomePromptReply(answer)) => Some(answer@),
                None => None,
            },
        }
    }
}

impl PromptReply {
    /// The reply that the wire numbers `action` and `lifespan` stand for, if
    /// both are numbers of the protocol.
    pub open spec fn from_numbers(
        prompt_id: Seq<char>,
        action: int,
        lifespan: int,
        answer: Option<HomePromptReplyView>,
    ) -> Result<PromptReplyView, PromptError> {
        if Action::from_number(action) is None {
            Err(PromptError::UnknownAction)
        } else if Lifespan::from_number(lifespan) is None {
            Err(PromptError::UnknownLifespan)
        } else {
            Ok(
                PromptReplyView {
                    prompt_id,
                    action: Action::from_number(action)->0,
                    lifespan: Lifespan::from_number(lifespan)->0,
                    answer,
                },
            )
        }
    }

    /// Builds a reply from the parts of its wire form, in which action and
    /// lifespan are numbers. A number that the protocol does not define is
    /// turned down, the action's first.
    pub fn from_wire(
        prompt_id: String,
        action: i32,
        lifespan: i32,
        prompt_reply: Option<crate::prompt_reply::PromptReply>,
    ) -> (result: Result<PromptReply, PromptError>)
        ensures
            match result {
                Ok(reply) => Ok::<PromptReplyView, PromptError>(reply@),
                Err(error) => Err(error),
            } == PromptReply::from_numbers(
                prompt_id@,
                action as int,
                lifespan as int,
                match prompt_reply {
                    Some(crate::prompt_reply::PromptReply::HomePromptReply(answer)) => Some(
                        answer@,
                    ),
                    None => None,
                },
            ),
    {
        let action = match Action::from_i32(action) {
            Some(action) => action,
            None => { return Err(PromptError::UnknownAction); },
        };
        let lifespan = match Lifespan::from_i32(lifespan) {
            Some(lifespan) => lifespan,
            None => { return Err(PromptError::UnknownLifespan); },
        };
        Ok(PromptReply { prompt_id, action, lifespan, prompt_reply })
    }
}

/// How a reply was received.
#[derive(Clone, Debug, Default, PartialEq, Eq)]
pub struct PromptReplyResponse {
    pub prompt_reply_type: PromptReplyType,
    /// For a reply that was turned down, the reason.
    pub message: String,
}

/// The prompt to show, if one is pending.
#[derive(Clone, Debug, Default, PartialEq, Eq)]
pub struct GetCurrentPromptResponse {
    pub prompt: Option<Prompt>,
}

/// What a path stands for among the kinds of pattern.
#[derive(Clone, Copy, Debug, Default, PartialEq, Eq)]
pub struct ResolveHomePatternTypeResponse {
    pub home_pattern_type: HomePatternType,
}

/// The logging level now in force.
#[derive(Clone, Debug, Default, PartialEq, Eq)]
pub struct SetLoggingLevelResponse {
    pub current: String,
}

} // verus!
