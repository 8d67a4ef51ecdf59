//! The answer that a reply carries, by kind of prompt.

use vstd::prelude::*;
use crate::messages::HomePromptReply;

verus! {

/// The answer that a reply carries. Each kind of prompt has its own kind of
/// answer.
#[derive(Clone, Debug, PartialEq, Eq)]
pub enum PromptReply {
    HomePromptReply(HomePromptReply),
}

} // verus!
