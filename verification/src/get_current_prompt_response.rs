//! The prompt that a response carries, by kind.

use vstd::prelude::*;
use crate::messages::HomePrompt;

verus! {

/// A pending prompt of one of the kinds that the protocol knows.
#[derive(Clone, Debug, PartialEq, Eq)]
pub enum Prompt {
    HomePrompt(HomePrompt),
}

} // verus!
