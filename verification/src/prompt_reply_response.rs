//! How a reply to a prompt was received.

use vstd::prelude::*;
use crate::text::same_text;

verus! {

/// How a reply to a prompt was received.
#[derive(Clone, Copy, Debug, PartialEq, Eq, Structural, Hash, PartialOrd, Ord)]
pub enum PromptReplyType {
    /// The reply was taken and the prompt is answered.
    Success,
    /// The reply was turned down; the message says why.
    Unknown,
    /// No pending prompt has the identifier that the reply names.
    PromptNotFound,
}

impl Default for PromptReplyType {
    /// The value with the wire number zero.
    fn default() -> (value: PromptReplyType)
        ensures
            value == PromptReplyType::Success,
    {
        PromptReplyType::Success
    }
}

impl PromptReplyType {
    /// The name of the value in the protocol definition.
    pub open spec fn str_name(self) -> Seq<char> {
        match self {
            PromptReplyType::Success => "SUCCESS"@,
            PromptReplyType::Unknown => "UNKNOWN"@,
            PromptReplyType::PromptNotFound => "PROMPT_NOT_FOUND"@,
        }
    }

    /// The value that the protocol definition calls `name`, if any.
    pub open spec fn from_name(name: Seq<char>) -> Option<PromptReplyType> {
        if name == "SUCCESS"@ {
            Some(PromptReplyType::Success)
        } else if name == "UNKNOWN"@ {
            Some(PromptReplyType::Unknown)
        } else if name == "PROMPT_NOT_FOUND"@ {
            Some(PromptReplyType::PromptNotFound)
        } else {
            None
        }
    }

    /// The number of the value on the wire.
    pub open spec fn number(self) -> int {
        match self {
            PromptReplyType::Success => 0,
            PromptReplyType::Unknown => 1,
            PromptReplyType::PromptNotFound => 2,
        }
    }

    /// The value with the wire number `n`, if any.
    pub open spec fn from_number(n: int) -> Option<PromptReplyType> {
        if n == 0 {
            Some(PromptReplyType::Success)
        } else if n == 1 {
            Some(PromptReplyType::Unknown)
        } else if n == 2 {
            Some(PromptReplyType::PromptNotFound)
        } else {
            None
        }
    }

    /// String value of the enum field name used in the protocol definition.
    pub fn as_str_name(&self) -> (name: &'static str)
        ensures
            name@ == self.str_name(),
    {
        match self {
            PromptReplyType::Success => "SUCCESS",
            PromptReplyType::Unknown => "UNKNOWN",
            PromptReplyType::PromptNotFound => "PROMPT_NOT_FOUND",
        }
    }

    /// Creates an enum from a field name used in the protocol definition.
    pub fn from_str_name(value: &str) -> (parsed: Option<PromptReplyType>)
        ensures
            parsed == PromptReplyType::from_name(value@),
    {
        if same_text(value, "SUCCESS") {
            Some(PromptReplyType::Success)
        } else if same_text(value, "UNKNOWN") {
            Some(PromptReplyType::Unknown)
        } else if same_text(value, "PROMPT_NOT_FOUND") {
            Some(PromptReplyType::PromptNotFound)
        } else {
            None
        }
    }

    /// The wire number of the value.
    pub fn to_i32(&self) -> (n: i32)
        ensures
            n == self.number(),
    {
        match self {
            PromptReplyType::Success => 0,
            PromptReplyType::Unknown => 1,
            PromptReplyType::PromptNotFound => 2,
        }
    }

    /// The value with the wire number `value`; `None` for a number that the
    /// protocol does not define.
    pub fn from_i32(value: i32) -> (parsed: Option<PromptReplyType>)
        ensures
            parsed == PromptReplyType::from_number(value as int),
    {
        if value == 0 {
            Some(PromptReplyType::Success)
        } else if value == 1 {
            Some(PromptReplyType::Unknown)
        } else if value == 2 {
            Some(PromptReplyType::PromptNotFound)
        } else {
            None
        }
    }

    /// Names and numbers identify the value: each reads back as the value
    /// it was taken from.
    pub proof fn lemma_round_trip(self)
        ensures
            PromptReplyType::from_name(self.str_name()) == Some(self),
            PromptReplyType::from_number(self.number()) == Some(self),
    {
        reveal_strlit("SUCCESS");
        reveal_strlit("UNKNOWN");
        reveal_strlit("PROMPT_NOT_FOUND");
        assert("SUCCESS"@.len() == 7 && "SUCCESS"@[0] == 'S');
        assert("UNKNOWN"@.len() == 7 && "UNKNOWN"@[0] == 'U');
    }
}

} // verus!
