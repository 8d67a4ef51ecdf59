//! From an accepted reply to the rule that the mediator enforces and the
//! rule store keeps.

use vstd::prelude::*;
use crate::enums::{Action, Lifespan};
use crate::permissions::{distinct, texts, without_repeats};

verus! {

/// A decision on a pattern: what is allowed or denied, for which
/// permissions, and for how long.
#[derive(Clone, Debug, PartialEq, Eq)]
pub struct Rule {
    pub path_pattern: String,
    /// The permissions that the rule covers, each once.
    pub permissions: Vec<String>,
    /// How long the rule holds. It is also the scope under which the rule
    /// store keeps the rule.
    pub lifespan: Lifespan,
    pub action: Action,
}

/// A rule as a mathematical value.
pub struct RuleView {
    pub path_pattern: Seq<char>,
    pub permissions: Seq<Seq<char>>,
    pub lifespan: Lifespan,
    pub action: Action,
}

impl View for Rule {
    type V = RuleView;

    open spec fn view(&self) -> RuleView {
        RuleView {
            path_pattern: self.path_pattern@,
            permissions: texts(self.permissions@),
            lifespan: self.lifespan,
            action: self.action,
        }
    }
}

impl Rule {
    /// Whether the rule store keeps the rule. A rule for a single occurrence
    /// only releases the access that waits for it.
    pub fn is_persisted(&self) -> (kept: bool)
        ensures
            kept == (self.lifespan != Lifespan::Single),
    {
        match self.lifespan {
            Lifespan::Single => false,
            _ => true,
        }
    }
}

/// The rule that a reply comes to: the chosen pattern, the chosen
/// permissions, each once, and the lifespan and action of the reply.
pub open spec fn translated(
    pattern: Seq<char>,
    permissions: Seq<Seq<char>>,
    lifespan: Lifespan,
    action: Action,
) -> RuleView {
    RuleView { path_pattern: pattern, permissions: distinct(permissions), lifespan, action }
}

/// Builds the rule for an accepted reply.
pub fn translate(
    chosen_pattern: String,
    chosen_permissions: Vec<String>,
    lifespan: Lifespan,
    action: Action,
) -> (rule: Rule)
    ensures
        rule@ == translated(chosen_pattern@, texts(chosen_permissions@), lifespan, action),
{
    Rule {
        path_pattern: chosen_pattern,
        permissions: without_repeats(&chosen_permissions),
        lifespan,
        action,
    }
}

/// What the mediator is told once a prompt is answered.
#[derive(Clone, Debug, PartialEq, Eq)]
pub enum Decision {
    /// The access is granted under the rule.
    Allowed(Rule),
    /// The access is refused. A refusal that outlasts the occurrence comes
    /// with the rule that records it; a refusal of the single occurrence
    /// comes with none.
    Denied(Option<Rule>),
}

/// A decision as a mathematical value.
pub enum DecisionView {
    Allowed(RuleView),
    Denied(Option<RuleView>),
}

impl View for Decision {
    type V = DecisionView;

    open spec fn view(&self) -> DecisionView {
        match self {
            Decision::Allowed(rule) => DecisionView::Allowed(rule@),
            Decision::Denied(Some(rule)) => DecisionView::Denied(Some(rule@)),
            Decision::Denied(None) => DecisionView::Denied(None),
        }
    }
}

/// The decision that a reply comes to.
pub open spec fn decided(
    pattern: Seq<char>,
    permissions: Seq<Seq<char>>,
    lifespan: Lifespan,
    action: Action,
) -> DecisionView {
    match action {
        Action::Allow => DecisionView::Allowed(translated(pattern, permissions, lifespan, action)),
        Action::Deny => if lifespan == Lifespan::Single {
            DecisionView::Denied(None)
        } else {
            DecisionView::Denied(Some(translated(pattern, permissions, lifespan, action)))
        },
    }
}

/// Turns an accepted reply into the decision for the mediator.
pub fn decide(
    chosen_pattern: String,
    chosen_permissions: Vec<String>,
    lifespan: Lifespan,
    action: Action,
) -> (decision: Decision)
    ensures
        decision@ == decided(chosen_pattern@, texts(chosen_permissions@), lifespan, action),
{
    match action {
        Action::Allow => Decision::Allowed(
            translate(chosen_pattern, chosen_permissions, lifespan, action),
        ),
        Action::Deny => match lifespan {
            Lifespan::Single => Decision::Denied(None),
            _ => Decision::Denied(
                Some(translate(chosen_pattern, chosen_permissions, lifespan, action)),
            ),
        },
    }
}

} // verus!
