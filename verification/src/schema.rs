//! Declarative command schemas.
//!
//! A command declares its name, description, typed options and default
//! visibility once at startup; the host platform enforces them afterwards.
//! Registration is pure data: each command builds its schema and the
//! permission grants that should accompany it, and the transport layer
//! submits both.

use vstd::prelude::*;
use crate::permissions::Grant;

verus! {

/// The type of one command option.
#[derive(Clone, Copy, PartialEq, Eq, Structural, Debug)]
pub enum OptKind {
    Text,
    Integer,
    User,
}

/// One enumerated choice of a text option: the label shown to the actor and
/// the value transported when it is chosen (for role choices, the role id
/// in decimal).
pub struct Choice {
    pub label: String,
    pub value: String,
}

/// One typed option of a command or sub-command.
pub struct OptSpec {
    pub name: String,
    pub kind: OptKind,
    pub required: bool,
    pub choices: Vec<Choice>,
}

/// One sub-command: a name and its own option list.
pub struct SubSpec {
    pub name: String,
    pub description: String,
    pub options: Vec<OptSpec>,
}

/// The full declaration of one command. Commands default to hidden unless
/// `default_visible` is set; visibility is then opened by permission grants.
pub struct CommandSchema {
    pub name: String,
    pub description: String,
    pub default_visible: bool,
    pub options: Vec<OptSpec>,
    pub subcommands: Vec<SubSpec>,
}

/// What one registration submits to the host platform: a schema and the
/// grants that open it to the intended roles.
pub struct Registration {
    pub schema: CommandSchema,
    pub grants: Vec<Grant>,
}

impl Clone for Choice {
    fn clone(&self) -> (r: Self)
        ensures
            r == *self,
    {
        Choice { label: self.label.clone(), value: self.value.clone() }
    }
}

} // verus!
