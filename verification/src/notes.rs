//! The staff notes command.
//!
//! Staff attach short notes to users. The command has three sub-commands:
//! list a user's notes (paged, ten per response), add a note stamped with
//! the current time, and remove a note by id. The note store itself is an
//! external collaborator; this module decides what to ask of it and how to
//! answer, and store failure is a distinct result, never a sentinel id.

use vstd::prelude::*;
use crate::config::Config;
use crate::events::{int_opt, text_opt, InputError, Invocation, parse_u64, parse_u64_spec};
use crate::paging::{page_at, page_count_spec, plan_pages, Emission};
use crate::permissions::{grants_spec, permission_grants};
use crate::schema::{CommandSchema, OptKind, OptSpec, Registration, SubSpec};

verus! {

/// One stored note.
pub struct Note {
    pub id: u64,
    pub note: String,
    pub creator: u64,
    pub created_at: i64,
}

/// A failure of the note store.
#[derive(Clone, Copy, PartialEq, Eq, Structural, Debug)]
pub enum StoreError {
    Unavailable,
}

/// What one notes invocation asks of the store.
#[derive(Debug)]
pub enum NotesRequest {
    /// Fetch and page the notes of this user.
    List { user: u64 },
    /// Add a note for this user, stamped with the invocation's instant.
    Add { user: u64, text: String, created_at: i64 },
    /// Remove this note from this user.
    Remove { user: u64, note_id: u64 },
    /// The actor's input was unusable; answer with a corrective message.
    Invalid(InputError),
}

/// How the add sub-command is acknowledged once the store has answered.
#[derive(Clone, Copy, PartialEq, Eq, Structural, Debug)]
pub enum NotesAck {
    /// The note was stored under this id.
    Added { id: u64 },
    /// The store failed; apologise instead of inventing an id.
    StoreFailed,
}

/// What parsing one notes invocation at instant `now` yields: the store
/// request for a well-formed sub-command, and the exact input fault
/// otherwise.
pub open spec fn request_rel(inv: Invocation, now: i64, r: NotesRequest) -> bool {
    match inv.subcommand {
        Option::None => r == NotesRequest::Invalid(InputError::UnknownSubcommand),
        Option::Some(s) => if s@ == "list"@ {
            match text_opt(inv.options@, "user"@) {
                Option::None => r == NotesRequest::Invalid(InputError::MissingOption),
                Option::Some(t) => match parse_u64_spec(t) {
                    Option::None => r == NotesRequest::Invalid(InputError::InvalidNumber),
                    Option::Some(u) => r == NotesRequest::List { user: u },
                },
            }
        } else if s@ == "add"@ {
            match text_opt(inv.options@, "user"@) {
                Option::None => r == NotesRequest::Invalid(InputError::MissingOption),
                Option::Some(t) => match parse_u64_spec(t) {
                    Option::None => r == NotesRequest::Invalid(InputError::InvalidNumber),
                    Option::Some(u) => match text_opt(inv.options@, "note"@) {
                        Option::None => r == NotesRequest::Invalid(InputError::MissingOption),
                        Option::Some(txt) => r matches NotesRequest::Add {
                            user,
                            text,
                            created_at,
                        } && user == u && text@ == txt && created_at == now,
                    },
                },
            }
        } else if s@ == "remove"@ {
            match text_opt(inv.options@, "user"@) {
                Option::None => r == NotesRequest::Invalid(InputError::MissingOption),
                Option::Some(t) => match parse_u64_spec(t) {
                    Option::None => r == NotesRequest::Invalid(InputError::InvalidNumber),
                    Option::Some(u) => match int_opt(inv.options@, "noteid"@) {
                        Option::None => r == NotesRequest::Invalid(InputError::MissingOption),
                        Option::Some(v) => if v < 0 {
                            r == NotesRequest::Invalid(InputError::InvalidNumber)
                        } else {
                            r == (NotesRequest::Remove { user: u, note_id: v as u64 })
                        },
                    },
                },
            }
        } else {
            r == NotesRequest::Invalid(InputError::UnknownSubcommand)
        },
    }
}

/// A required `user` option: whose notes are meant.
pub open spec fn is_user_required(o: OptSpec) -> bool {
    &&& o.name@ == "user"@
    &&& o.kind == OptKind::User
    &&& o.required
    &&& o.choices@.len() == 0
}

/// The staff notes command; stateless across invocations.
pub struct Notes;

impl Notes {
    /// The command's name.
    pub fn name(&self) -> (r: String)
        ensures
            r@ == "notes"@,
    {
        "notes".to_owned()
    }

    /// A notes command.
    pub fn new() -> (r: Notes) {
        Notes
    }

    /// Declares the command with its three sub-commands — list, add,
    /// remove — open to support, trial support and staff.
    pub fn register(&self, cfg: &Config) -> (r: Registration)
        ensures
            r.schema.name@ == "notes"@,
            r.schema.default_visible == false,
            r.schema.options@.len() == 0,
            r.schema.subcommands@.len() == 3,
            r.schema.subcommands@[0].name@ == "list"@,
            r.schema.subcommands@[0].options@.len() == 1,
            is_user_required(r.schema.subcommands@[0].options@[0]),
            r.schema.subcommands@[1].name@ == "add"@,
            r.schema.subcommands@[1].options@.len() == 2,
            is_user_required(r.schema.subcommands@[1].options@[0]),
            r.schema.subcommands@[1].options@[1].name@ == "note"@ && r.schema.subcommands@[1].options@[1].kind
                == OptKind::Text && r.schema.subcommands@[1].options@[1].required,
            r.schema.subcommands@[2].name@ == "remove"@,
            r.schema.subcommands@[2].options@.len() == 2,
            is_user_required(r.schema.subcommands@[2].options@[0]),
            r.schema.subcommands@[2].options@[1].name@ == "noteid"@
                && r.schema.subcommands@[2].options@[1].kind == OptKind::Integer
                && r.schema.subcommands@[2].options@[1].required,
            r.grants@ == grants_spec(seq![cfg.support, cfg.trial_support, cfg.staff]),
    {
        let mut list_opts: Vec<OptSpec> = Vec::new();
        list_opts.push(
            OptSpec {
                name: "user".to_owned(),
                kind: OptKind::User,
                required: true,
                choices: Vec::new(),
            },
        );
        let mut add_opts: Vec<OptSpec> = Vec::new();
        add_opts.push(
            OptSpec {
                name: "user".to_owned(),
                kind: OptKind::User,
                required: true,
                choices: Vec::new(),
            },
        );
        add_opts.push(
            OptSpec {
                name: "note".to_owned(),
                kind: OptKind::Text,
                required: true,
                choices: Vec::new(),
            },
        );
        let mut remove_opts: Vec<OptSpec> = Vec::new();
        remove_opts.push(
            OptSpec {
                name: "user".to_owned(),
                kind: OptKind::User,
                required: true,
                choices: Vec::new(),
            },
        );
        remove_opts.push(
            OptSpec {
                name: "noteid".to_owned(),
                kind: OptKind::Integer,
                required: true,
                choices: Vec::new(),
            },
        );
        let mut subcommands: Vec<SubSpec> = Vec::new();
        subcommands.push(
            SubSpec {
                name: "list".to_owned(),
                description: "The notes for a given user.".to_owned(),
                options: list_opts,
            },
        );
        subcommands.push(
            SubSpec {
                name: "add".to_owned(),
                description: "Add a note for a given user.".to_owned(),
                options: add_opts,
            },
        );
        subcommands.push(
            SubSpec {
                name: "remove".to_owned(),
                description: "Delete a note from a user.".to_owned(),
                options: remove_opts,
            },
        );
        let mut required: Vec<u64> = Vec::new();
        required.push(cfg.support);
        required.push(cfg.trial_support);
        let mut baseline: Vec<u64> = Vec::new();
        baseline.push(cfg.staff);
        let grants = permission_grants(&required, &baseline);
        proof {
            assert(required@ + baseline@ =~= seq![cfg.support, cfg.trial_support, cfg.staff]);
        }
        Registration {
            schema: CommandSchema {
                name: "notes".to_owned(),
                description: "A way for staff to set notes for users.".to_owned(),
                default_visible: false,
                options: Vec::new(),
                subcommands,
            },
            grants,
        }
    }

    /// Parses one invocation into a store request, stamping an added note
    /// with the instant `now`.
    pub fn parse_request(&self, inv: &Invocation, now: i64) -> (r: NotesRequest)
        ensures
            request_rel(*inv, now, r),
    {
        let sub = match &inv.subcommand {
            Option::Some(s) => s,
            Option::None => {
                return NotesRequest::Invalid(InputError::UnknownSubcommand);
            },
        };
        let is_list = *sub == "list".to_owned();
        let is_add = *sub == "add".to_owned();
        let is_remove = *sub == "remove".to_owned();
        if !(is_list || is_add || is_remove) {
            return NotesRequest::Invalid(InputError::UnknownSubcommand);
        }
        let user_txt = match inv.get_text(&"user".to_owned()) {
            Some(t) => t,
            None => {
                return NotesRequest::Invalid(InputError::MissingOption);
            },
        };
        let user = match parse_u64(&user_txt) {
            Some(u) => u,
            None => {
                return NotesRequest::Invalid(InputError::InvalidNumber);
            },
        };
        if is_list {
            NotesRequest::List { user }
        } else if is_add {
            let text = match inv.get_text(&"note".to_owned()) {
                Some(t) => t,
                None => {
                    return NotesRequest::Invalid(InputError::MissingOption);
                },
            };
            NotesRequest::Add { user, text, created_at: now }
        } else {
            let v = match inv.get_int(&"noteid".to_owned()) {
                Some(v) => v,
                None => {
                    return NotesRequest::Invalid(InputError::MissingOption);
                },
            };
            if v < 0 {
                NotesRequest::Invalid(InputError::InvalidNumber)
            } else {
                NotesRequest::Remove { user, note_id: v as u64 }
            }
        }
    }

    /// Parses one invocation against the real clock: what `parse_request`
    /// yields for the instant the clock reported.
    pub fn parse_request_now(&self, inv: &Invocation) -> (r: NotesRequest)
        ensures
            exists|t: i64| request_rel(*inv, t, r),
    {
        let now = crate::clock::now_unix();
        let r = self.parse_request(inv, now);
        proof {
            assert(request_rel(*inv, now, r));
        }
        r
    }

    /// Pages a user's fetched notes: one "no results" response when there
    /// are none, and otherwise the notes in order, ten per page.
    pub fn list_plan(&self, notes: &Vec<Note>) -> (r: Vec<Emission>)
        ensures
            notes@.len() == 0 ==> r@ =~= seq![Emission::NoResults],
            notes@.len() > 0 ==> {
                &&& r@.len() == page_count_spec(notes@.len())
                &&& r@[0] == Emission::Initial(
                    page_at(notes@.len(), page_count_spec(notes@.len()), 0),
                )
                &&& forall|p: int|
                    1 <= p < r@.len() ==> r@[p] == Emission::FollowUp(
                        page_at(notes@.len(), page_count_spec(notes@.len()), p),
                    )
            },
    {
        plan_pages(notes.len())
    }

    /// Acknowledges the add sub-command from the store's answer: the new
    /// id on success, a distinct failure otherwise.
    pub fn add_ack(&self, outcome: Result<u64, StoreError>) -> (r: NotesAck)
        ensures
            outcome matches Result::Ok(id) ==> r == (NotesAck::Added { id }),
            outcome is Err ==> r == NotesAck::StoreFailed,
    {
        match outcome {
            Result::Ok(id) => NotesAck::Added { id },
            Result::Err(_) => NotesAck::StoreFailed,
        }
    }
}

} // verus!
