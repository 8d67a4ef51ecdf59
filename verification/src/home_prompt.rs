//! Types nested in a home prompt.

use vstd::prelude::*;
use crate::enums::HomePatternType;

verus! {

/// One candidate generalisation of a requested path.
#[derive(Clone, Debug, Default, PartialEq, Eq)]
pub struct PatternOption {
    /// What the pattern stands for.
    pub home_pattern_type: HomePatternType,
    /// The pattern itself; it may hold wildcards.
    pub path_pattern: String,
    /// Whether the option is on view before the list is expanded.
    pub show_initially: bool,
}

/// A pattern option as a mathematical value.
pub struct PatternOptionView {
    pub home_pattern_type: HomePatternType,
    pub path_pattern: Seq<char>,
    pub show_initially: bool,
}

impl View for PatternOption {
    type V = PatternOptionView;

    open spec fn view(&self) -> PatternOptionView {
        PatternOptionView {
            home_pattern_type: self.home_pattern_type,
            path_pattern: self.path_pattern@,
            show_initially: self.show_initially,
        }
    }
}

/// The views of a list of pattern options, in order.
pub open spec fn options_view(options: Seq<PatternOption>) -> Seq<PatternOptionView> {
    Seq::new(options.len(), |i: int| options[i]@)
}

impl PatternOption {
    /// A copy of the option.
    pub fn duplicate(&self) -> (copy: PatternOption)
        ensures
            copy@ == self@,
    {
        PatternOption {
            home_pattern_type: self.home_pattern_type,
            path_pattern: self.path_pattern.clone(),
            show_initially: self.show_initially,
        }
    }
}

} // verus!
