//! The ticket membership command.
//!
//! Staff add or remove a user on an existing ticket channel. Whether the
//! channel is a ticket is a presence flag the screenshare store answers;
//! the transport performs the permission-overwrite changes decided here.

use vstd::prelude::*;
use crate::config::Config;
use crate::events::{text_opt, InputError, Invocation, parse_u64, parse_u64_spec};
use crate::permissions::{grants_spec, permission_grants};
use crate::schema::{Choice, CommandSchema, OptKind, OptSpec, Registration};

verus! {

/// What one ticket invocation decides.
#[derive(Clone, Copy, PartialEq, Eq, Structural, Debug)]
pub enum TicketAction {
    /// The actor's input was unusable; answer with a corrective message.
    Invalid(InputError),
    /// The channel is not a ticket; tell the actor so.
    NotATicket,
    /// Grant the target access to the ticket channel.
    AddMember { target: u64 },
    /// Revoke the target's access to the ticket channel.
    RemoveMember { target: u64 },
}

/// What a ticket invocation decides, given whether the channel is a
/// ticket: bad input is reported first, then the ticket check, then the
/// chosen operation.
pub open spec fn ticket_rel(inv: Invocation, is_ticket: bool, r: TicketAction) -> bool {
    match text_opt(inv.options@, "target"@) {
        Option::None => r == TicketAction::Invalid(InputError::MissingOption),
        Option::Some(t) => match parse_u64_spec(t) {
            Option::None => r == TicketAction::Invalid(InputError::InvalidNumber),
            Option::Some(who) => match text_opt(inv.options@, "operation"@) {
                Option::None => r == TicketAction::Invalid(InputError::MissingOption),
                Option::Some(op) => if !is_ticket {
                    r == TicketAction::NotATicket
                } else if op == "a"@ {
                    r == (TicketAction::AddMember { target: who })
                } else if op == "r"@ {
                    r == (TicketAction::RemoveMember { target: who })
                } else {
                    r == TicketAction::Invalid(InputError::UnknownOperation)
                },
            },
        },
    }
}

/// The ticket membership command; stateless across invocations.
pub struct Ticket;

impl Ticket {
    /// The command's name.
    pub fn name(&self) -> (r: String)
        ensures
            r@ == "ticket"@,
    {
        "ticket".to_owned()
    }

    /// A ticket command.
    pub fn new() -> (r: Ticket) {
        Ticket
    }

    /// Declares the command: an add/remove operation choice and a required
    /// target user; open to screenshare support and staff.
    pub fn register(&self, cfg: &Config) -> (r: Registration)
        ensures
            r.schema.name@ == "ticket"@,
            r.schema.default_visible == false,
            r.schema.subcommands@.len() == 0,
            r.schema.options@.len() == 2,
            r.schema.options@[0].name@ == "operation"@,
            r.schema.options@[0].kind == OptKind::Text,
            r.schema.options@[0].required,
            r.schema.options@[0].choices@.len() == 2,
            r.schema.options@[0].choices@[0].label@ == "Add"@ && r.schema.options@[0].choices@[0].value@
                == "a"@,
            r.schema.options@[0].choices@[1].label@ == "Remove"@
                && r.schema.options@[0].choices@[1].value@ == "r"@,
            r.schema.options@[1].name@ == "target"@,
            r.schema.options@[1].kind == OptKind::User,
            r.schema.options@[1].required,
            r.schema.options@[1].choices@.len() == 0,
            r.grants@ == grants_spec(seq![cfg.ss_support, cfg.staff]),
    {
        let mut choices: Vec<Choice> = Vec::new();
        choices.push(Choice { label: "Add".to_owned(), value: "a".to_owned() });
        choices.push(Choice { label: "Remove".to_owned(), value: "r".to_owned() });
        let mut options: Vec<OptSpec> = Vec::new();
        options.push(
            OptSpec { name: "operation".to_owned(), kind: OptKind::Text, required: true, choices },
        );
        options.push(
            OptSpec {
                name: "target".to_owned(),
                kind: OptKind::User,
                required: true,
                choices: Vec::new(),
            },
        );
        let mut required: Vec<u64> = Vec::new();
        required.push(cfg.ss_support);
        let mut baseline: Vec<u64> = Vec::new();
        baseline.push(cfg.staff);
        let grants = permission_grants(&required, &baseline);
        proof {
            assert(required@ + baseline@ =~= seq![cfg.ss_support, cfg.staff]);
        }
        Registration {
            schema: CommandSchema {
                name: "ticket".to_owned(),
                description: "Adds/removes someone to an existing ticket".to_owned(),
                default_visible: false,
                options,
                subcommands: Vec::new(),
            },
            grants,
        }
    }

    /// Decides one invocation, given whether the channel is a ticket.
    pub fn run(&self, inv: &Invocation, is_ticket: bool) -> (r: TicketAction)
        ensures
            ticket_rel(*inv, is_ticket, r),
    {
        let target_txt = match inv.get_text(&"target".to_owned()) {
            Some(t) => t,
            None => {
                return TicketAction::Invalid(InputError::MissingOption);
            },
        };
        let who = match parse_u64(&target_txt) {
            Some(v) => v,
            None => {
                return TicketAction::Invalid(InputError::InvalidNumber);
            },
        };
        let operation = match inv.get_text(&"operation".to_owned()) {
            Some(t) => t,
            None => {
                return TicketAction::Invalid(InputError::MissingOption);
            },
        };
        if !is_ticket {
            return TicketAction::NotATicket;
        }
        if operation == "a".to_owned() {
            TicketAction::AddMember { target: who }
        } else if operation == "r".to_owned() {
            TicketAction::RemoveMember { target: who }
        } else {
            TicketAction::Invalid(InputError::UnknownOperation)
        }
    }
}

} // verus!
