//! The suggestion command.
//!
//! Any actor may file a suggestion; the command confirms it to the actor
//! and forwards the text to the configured suggestion channel.

use vstd::prelude::*;
use crate::config::Config;
use crate::events::{text_opt, InputError, Invocation};
use crate::schema::{CommandSchema, OptKind, OptSpec, Registration};

verus! {

/// What a filed suggestion asks the transport to do: confirm to the actor,
/// and forward the text to the suggestion channel on the actor's behalf.
#[derive(Debug)]
pub struct SuggestionPlan {
    pub channel: u64,
    pub actor: u64,
    pub suggestion: String,
}

/// The suggestion command; stateless across invocations.
pub struct Suggestion;

impl Suggestion {
    /// The command's name.
    pub fn name(&self) -> (r: String)
        ensures
            r@ == "suggestion"@,
    {
        "suggestion".to_owned()
    }

    /// A suggestion command.
    pub fn new() -> (r: Suggestion) {
        Suggestion
    }

    /// Declares the command: one required text option; open to everyone,
    /// so no grants accompany it.
    pub fn register(&self) -> (r: Registration)
        ensures
            r.schema.name@ == "suggestion"@,
            r.schema.default_visible == true,
            r.schema.subcommands@.len() == 0,
            r.schema.options@.len() == 1,
            r.schema.options@[0].name@ == "suggestion"@,
            r.schema.options@[0].kind == OptKind::Text,
            r.schema.options@[0].required,
            r.schema.options@[0].choices@.len() == 0,
            r.grants@.len() == 0,
    {
        let mut options: Vec<OptSpec> = Vec::new();
        options.push(
            OptSpec {
                name: "suggestion".to_owned(),
                kind: OptKind::Text,
                required: true,
                choices: Vec::new(),
            },
        );
        Registration {
            schema: CommandSchema {
                name: "suggestion".to_owned(),
                description: "Create a suggestion".to_owned(),
                default_visible: true,
                options,
                subcommands: Vec::new(),
            },
            grants: Vec::new(),
        }
    }

    /// Decides one invocation: the forwarding plan when the suggestion
    /// text is present, the exact input fault otherwise.
    pub fn run(&self, cfg: &Config, inv: &Invocation) -> (r: Result<SuggestionPlan, InputError>)
        ensures
            r is Err <==> text_opt(inv.options@, "suggestion"@) is None,
            r is Err ==> r == Result::<SuggestionPlan, InputError>::Err(InputError::MissingOption),
            r matches Result::Ok(p) ==> {
                &&& p.channel == cfg.suggestion_channel
                &&& p.actor == inv.actor_id
                &&& p.suggestion@ == text_opt(inv.options@, "suggestion"@).unwrap()
            },
    {
        let text = match inv.get_text(&"suggestion".to_owned()) {
            Some(t) => t,
            None => {
                return Err(InputError::MissingOption);
            },
        };
        Ok(SuggestionPlan { channel: cfg.suggestion_channel, actor: inv.actor_id, suggestion: text })
    }
}

} // verus!
