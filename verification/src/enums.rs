//! The closed enumerations of the prompting protocol: what a reply decides,
//! how long the decision lasts, and the kinds of path pattern on offer.

use vstd::prelude::*;
use crate::text::same_text;

verus! {

/// Whether an access is granted or refused.
#[derive(Clone, Copy, Debug, PartialEq, Eq, Structural, Hash, PartialOrd, Ord)]
pub enum Action {
    Allow,
    Deny,
}

impl Default for Action {
    /// The value with the wire number zero.
    fn default() -> (value: Action)
        ensures
            value == Action::Allow,
    {
        Action::Allow
    }
}

impl Action {
    /// The name of the value in the protocol definition.
    pub open spec fn str_name(self) -> Seq<char> {
        match self {
            Action::Allow => "ALLOW"@,
            Action::Deny => "DENY"@,
        }
    }

    /// The value that the protocol definition calls `name`, if any.
    pub open spec fn from_name(name: Seq<char>) -> Option<Action> {
        if name == "ALLOW"@ {
            Some(Action::Allow)
        } else if name == "DENY"@ {
            Some(Action::Deny)
        } else {
            None
        }
    }

    /// The number of the value on the wire.
    pub open spec fn number(self) -> int {
        match self {
            Action::Allow => 0,
            Action::Deny => 1,
        }
    }

    /// The value with the wire number `n`, if any.
    pub open spec fn from_number(n: int) -> Option<Action> {
        if n == 0 {
            Some(Action::Allow)
        } else if n == 1 {
            Some(Action::Deny)
        } else {
            None
        }
    }

    /// String value of the enum field name used in the protocol definition.
    pub fn as_str_name(&self) -> (name: &'static str)
        ensures
            name@ == self.str_name(),
    {
        match self {
            Action::Allow => "ALLOW",
            Action::Deny => "DENY",
        }
    }

    /// Creates an enum from a field name used in the protocol definition.
    pub fn from_str_name(value: &str) -> (parsed: Option<Action>)
        ensures
            parsed == Action::from_name(value@),
    {
        if same_text(value, "ALLOW") {
            Some(Action::Allow)
        } else if same_text(value, "DENY") {
            Some(Action::Deny)
        } else {
            None
        }
    }

    /// The wire number of the value.
    pub fn to_i32(&self) -> (n: i32)
        ensures
            n == self.number(),
    {
        match self {
            Action::Allow => 0,
            Action::Deny => 1,
        }
    }

    /// The value with the wire number `value`; `None` for a number that the
    /// protocol does not define.
    pub fn from_i32(value: i32) -> (parsed: Option<Action>)
        ensures
            parsed == Action::from_number(value as int),
    {
        if value == 0 {
            Some(Action::Allow)
        } else if value == 1 {
            Some(Action::Deny)
        } else {
            None
        }
    }

    /// Names and numbers identify the value: each reads back as the value
    /// it was taken from.
    pub proof fn lemma_round_trip(self)
        ensures
            Action::from_name(self.str_name()) == Some(self),
            Action::from_number(self.number()) == Some(self),
    {
        reveal_strlit("ALLOW");
        reveal_strlit("DENY");
        assert("ALLOW"@.len() != "DENY"@.len());
    }
}

/// How long a decision stays in force.
#[derive(Clone, Copy, Debug, PartialEq, Eq, Structural, Hash, PartialOrd, Ord)]
pub enum Lifespan {
    /// This occurrence only.
    Single,
    /// Until the requesting session ends.
    Session,
    /// Until revoked.
    Forever,
}

impl Default for Lifespan {
    /// The value with the wire number zero.
    fn default() -> (value: Lifespan)
        ensures
            value == Lifespan::Single,
    {
        Lifespan::Single
    }
}

impl Lifespan {
    /// The name of the value in the protocol definition.
    pub open spec fn str_name(self) -> Seq<char> {
        match self {
            Lifespan::Single => "SINGLE"@,
            Lifespan::Session => "SESSION"@,
            Lifespan::Forever => "FOREVER"@,
        }
    }

    /// The value that the protocol definition calls `name`, if any.
    pub open spec fn from_name(name: Seq<char>) -> Option<Lifespan> {
        if name == "SINGLE"@ {
            Some(Lifespan::Single)
        } else if name == "SESSION"@ {
            Some(Lifespan::Session)
        } else if name == "FOREVER"@ {
            Some(Lifespan::Forever)
        } else {
            None
        }
    }

    /// The number of the value on the wire.
    pub open spec fn number(self) -> int {
        match self {
            Lifespan::Single => 0,
            Lifespan::Session => 1,
            Lifespan::Forever => 2,
        }
    }

    /// The value with the wire number `n`, if any.
    pub open spec fn from_number(n: int) -> Option<Lifespan> {
        if n == 0 {
            Some(Lifespan::Single)
        } else if n == 1 {
            Some(Lifespan::Session)
        } else if n == 2 {
            Some(Lifespan::Forever)
        } else {
            None
        }
    }

    /// String value of the enum field name used in the protocol definition.
    pub fn as_str_name(&self) -> (name: &'static str)
        ensures
            name@ == self.str_name(),
    {
        match self {
            Lifespan::Single => "SINGLE",
            Lifespan::Session => "SESSION",
            Lifespan::Forever => "FOREVER",
        }
    }

    /// Creates an enum from a field name used in the protocol definition.
    pub fn from_str_name(value: &str) -> (parsed: Option<Lifespan>)
        ensures
            parsed == Lifespan::from_name(value@),
    {
        if same_text(value, "SINGLE") {
            Some(Lifespan::Single)
        } else if same_text(value, "SESSION") {
            Some(Lifespan::Session)
        } else if same_text(value, "FOREVER") {
            Some(Lifespan::Forever)
        } else {
            None
        }
    }

    /// The wire number of the value.
    pub fn to_i32(&self) -> (n: i32)
        ensures
            n == self.number(),
    {
        match self {
            Lifespan::Single => 0,
            Lifespan::Session => 1,
            Lifespan::Forever => 2,
        }
    }

    /// The value with the wire number `value`; `None` for a number that the
    /// protocol does not define.
    pub fn from_i32(value: i32) -> (parsed: Option<Lifespan>)
        ensures
            parsed == Lifespan::from_number(value as int),
    {
        if value == 0 {
            Some(Lifespan::Single)
        } else if value == 1 {
            Some(Lifespan::Session)
        } else if value == 2 {
            Some(Lifespan::Forever)
        } else {
            None
        }
    }

    /// Names and numbers identify the value: each reads back as the value
    /// it was taken from.
    pub proof fn lemma_round_trip(self)
        ensures
            Lifespan::from_name(self.str_name()) == Some(self),
            Lifespan::from_number(self.number()) == Some(self),
    {
        reveal_strlit("SINGLE");
        reveal_strlit("SESSION");
        reveal_strlit("FOREVER");
        assert("SINGLE"@.len() != "SESSION"@.len());
        assert("SESSION"@[0] != "FOREVER"@[0]);
    }
}

/// The kinds of path pattern that a prompt offers for a path under the
/// user's home directory.
#[derive(Clone, Copy, Debug, PartialEq, Eq, Structural, Hash, PartialOrd, Ord)]
pub enum HomePatternType {
    /// The requested directory itself.
    RequestedDirectory,
    /// The requested file itself.
    RequestedFile,
    /// The directory directly under the home directory that holds the path.
    TopLevelDirectory,
    /// The directory that holds the requested path.
    ContainingDirectory,
    /// The home directory.
    HomeDirectory,
    /// The files beside the requested file that share its extension.
    MatchingFileExtension,
    /// Everything below the requested directory.
    RequestedDirectoryContents,
}

impl Default for HomePatternType {
    /// The value with the wire number zero.
    fn default() -> (value: HomePatternType)
        ensures
            value == HomePatternType::RequestedDirectory,
    {
        HomePatternType::RequestedDirectory
    }
}

impl HomePatternType {
    /// The name of the value in the protocol definition.
    pub open spec fn str_name(self) -> Seq<char> {
        match self {
            HomePatternType::RequestedDirectory => "REQUESTED_DIRECTORY"@,
            HomePatternType::RequestedFile => "REQUESTED_FILE"@,
            HomePatternType::TopLevelDirectory => "TOP_LEVEL_DIRECTORY"@,
            HomePatternType::ContainingDirectory => "CONTAINING_DIRECTORY"@,
            HomePatternType::HomeDirectory => "HOME_DIRECTORY"@,
            HomePatternType::MatchingFileExtension => "MATCHING_FILE_EXTENSION"@,
            HomePatternType::RequestedDirectoryContents => "REQUESTED_DIRECTORY_CONTENTS"@,
        }
    }

    /// The value that the protocol definition calls `name`, if any.
    pub open spec fn from_name(name: Seq<char>) -> Option<HomePatternType> {
        if name == "REQUESTED_DIRECTORY"@ {
            Some(HomePatternType::RequestedDirectory)
        } else if name == "REQUESTED_FILE"@ {
            Some(HomePatternType::RequestedFile)
        } else if name == "TOP_LEVEL_DIRECTORY"@ {
            Some(HomePatternType::TopLevelDirectory)
        } else if name == "CONTAINING_DIRECTORY"@ {
            Some(HomePatternType::ContainingDirectory)
        } else if name == "HOME_DIRECTORY"@ {
            Some(HomePatternType::HomeDirectory)
        } else if name == "MATCHING_FILE_EXTENSION"@ {
            Some(HomePatternType::MatchingFileExtension)
        } else if name == "REQUESTED_DIRECTORY_CONTENTS"@ {
            Some(HomePatternType::RequestedDirectoryContents)
        } else {
            None
        }
    }

    /// The number of the value on the wire.
    pub open spec fn number(self) -> int {
        match self {
            HomePatternType::RequestedDirectory => 0,
            HomePatternType::RequestedFile => 1,
            HomePatternType::TopLevelDirectory => 2,
            HomePatternType::ContainingDirectory => 3,
            HomePatternType::HomeDirectory => 4,
            HomePatternType::MatchingFileExtension => 5,
            HomePatternType::RequestedDirectoryContents => 6,
        }
    }

    /// The value with the wire number `n`, if any.
    pub open spec fn from_number(n: int) -> Option<HomePatternType> {
        if n == 0 {
            Some(HomePatternType::RequestedDirectory)
        } else if n == 1 {
            Some(HomePatternType::RequestedFile)
        } else if n == 2 {
            Some(HomePatternType::TopLevelDirectory)
        } else if n == 3 {
            Some(HomePatternType::ContainingDirectory)
        } else if n == 4 {
            Some(HomePatternType::HomeDirectory)
        } else if n == 5 {
            Some(HomePatternType::MatchingFileExtension)
        } else if n == 6 {
            Some(HomePatternType::RequestedDirectoryContents)
        } else {
            None
        }
    }

    /// String value of the enum field name used in the protocol definition.
    pub fn as_str_name(&self) -> (name: &'static str)
        ensures
            name@ == self.str_name(),
    {
        match self {
            HomePatternType::RequestedDirectory => "REQUESTED_DIRECTORY",
            HomePatternType::RequestedFile => "REQUESTED_FILE",
            HomePatternType::TopLevelDirectory => "TOP_LEVEL_DIRECTORY",
            HomePatternType::ContainingDirectory => "CONTAINING_DIRECTORY",
            HomePatternType::HomeDirectory => "HOME_DIRECTORY",
            HomePatternType::MatchingFileExtension => "MATCHING_FILE_EXTENSION",
            HomePatternType::RequestedDirectoryContents => "REQUESTED_DIRECTORY_CONTENTS",
        }
    }

    /// Creates an enum from a field name used in the protocol definition.
    pub fn from_str_name(value: &str) -> (parsed: Option<HomePatternType>)
        ensures
            parsed == HomePatternType::from_name(value@),
    {
        if same_text(value, "REQUESTED_DIRECTORY") {
            Some(HomePatternType::RequestedDirectory)
        } else if same_text(value, "REQUESTED_FILE") {
            Some(HomePatternType::RequestedFile)
        } else if same_text(value, "TOP_LEVEL_DIRECTORY") {
            Some(HomePatternType::TopLevelDirectory)
        } else if same_text(value, "CONTAINING_DIRECTORY") {
            Some(HomePatternType::ContainingDirectory)
        } else if same_text(value, "HOME_DIRECTORY") {
            Some(HomePatternType::HomeDirectory)
        } else if same_text(value, "MATCHING_FILE_EXTENSION") {
            Some(HomePatternType::MatchingFileExtension)
        } else if same_text(value, "REQUESTED_DIRECTORY_CONTENTS") {
            Some(HomePatternType::RequestedDirectoryContents)
        } else {
            None
        }
    }

    /// The wire number of the value.
    pub fn to_i32(&self) -> (n: i32)
        ensures
            n == self.number(),
    {
        match self {
            HomePatternType::RequestedDirectory => 0,
            HomePatternType::RequestedFile => 1,
            HomePatternType::TopLevelDirectory => 2,
            HomePatternType::ContainingDirectory => 3,
            HomePatternType::HomeDirectory => 4,
            HomePatternType::MatchingFileExtension => 5,
            HomePatternType::RequestedDirectoryContents => 6,
        }
    }

    /// The value with the wire number `value`; `None` for a number that the
    /// protocol does not define.
    pub fn from_i32(value: i32) -> (parsed: Option<HomePatternType>)
        ensures
            parsed == HomePatternType::from_number(value as int),
    {
        if value == 0 {
            Some(HomePatternType::RequestedDirectory)
        } else if value == 1 {
            Some(HomePatternType::RequestedFile)
        } else if value == 2 {
            Some(HomePatternType::TopLevelDirectory)
        } else if value == 3 {
            Some(HomePatternType::ContainingDirectory)
        } else if value == 4 {
            Some(HomePatternType::HomeDirectory)
        } else if value == 5 {
            Some(HomePatternType::MatchingFileExtension)
        } else if value == 6 {
            Some(HomePatternType::RequestedDirectoryContents)
        } else {
            None
        }
    }

    /// Names and numbers identify the value: each reads back as the value
    /// it was taken from.
    pub proof fn lemma_round_trip(self)
        ensures
            HomePatternType::from_name(self.str_name()) == Some(self),
            HomePatternType::from_number(self.number()) == Some(self),
    {
        reveal_strlit("REQUESTED_DIRECTORY");
        reveal_strlit("REQUESTED_FILE");
        reveal_strlit("TOP_LEVEL_DIRECTORY");
        reveal_strlit("CONTAINING_DIRECTORY");
        reveal_strlit("HOME_DIRECTORY");
        reveal_strlit("MATCHING_FILE_EXTENSION");
        reveal_strlit("REQUESTED_DIRECTORY_CONTENTS");
        assert("REQUESTED_DIRECTORY"@.len() == 19 && "REQUESTED_DIRECTORY"@[0] == 'R');
        assert("REQUESTED_FILE"@.len() == 14 && "REQUESTED_FILE"@[0] == 'R');
        assert("TOP_LEVEL_DIRECTORY"@.len() == 19 && "TOP_LEVEL_DIRECTORY"@[0] == 'T');
        assert("CONTAINING_DIRECTORY"@.len() == 20);
        assert("HOME_DIRECTORY"@.len() == 14 && "HOME_DIRECTORY"@[0] == 'H');
        assert("MATCHING_FILE_EXTENSION"@.len() == 23);
    }
}

} // verus!
