//! The command registry.
//!
//! The closed set of commands, registered once at startup and resolved on
//! every inbound event by name — the ping family answers to each configured
//! ping name, every other command to its own. An event that resolves to no
//! command is dropped silently: declarations and events derive from the
//! same registration step, so a mismatch is tolerated defensively rather
//! than treated as fatal.

use vstd::prelude::*;
use crate::config::Config;
use crate::notes::Notes;
use crate::ping::{is_ping_name, Ping};
use crate::purge::Purge;
use crate::suggest::Suggestion;
use crate::ticket::Ticket;

verus! {

/// One registered command.
pub enum RegisteredCommand {
    Notes(Notes),
    Ping(Ping),
    Purge(Purge),
    Suggestion(Suggestion),
    Ticket(Ticket),
}

/// Whether command `c` owns the event name `name` under configuration
/// `cfg`.
pub open spec fn command_answers_to(c: RegisteredCommand, cfg: Config, name: Seq<char>) -> bool {
    match c {
        RegisteredCommand::Notes(_) => name == "notes"@,
        RegisteredCommand::Ping(_) => is_ping_name(cfg.pings@, name),
        RegisteredCommand::Purge(_) => name == "purge"@,
        RegisteredCommand::Suggestion(_) => name == "suggestion"@,
        RegisteredCommand::Ticket(_) => name == "ticket"@,
    }
}

fn answers_to(c: &RegisteredCommand, cfg: &Config, name: &String) -> (r: bool)
    ensures
        r == command_answers_to(*c, *cfg, name@),
{
    match c {
        RegisteredCommand::Notes(cmd) => *name == cmd.name(),
        RegisteredCommand::Ping(cmd) => cmd.is_command(cfg, name),
        RegisteredCommand::Purge(cmd) => *name == cmd.name(),
        RegisteredCommand::Suggestion(cmd) => *name == cmd.name(),
        RegisteredCommand::Ticket(cmd) => *name == cmd.name(),
    }
}

/// The registry: every command of the bot, in registration order.
pub struct CommandRegistry {
    pub commands: Vec<RegisteredCommand>,
}

impl CommandRegistry {
    /// The registry holds the five commands in registration order, each in
    /// its initial state.
    pub open spec fn wf(&self) -> bool {
        &&& self.commands@.len() == 5
        &&& self.commands@[0] is Notes
        &&& (self.commands@[1] matches RegisteredCommand::Ping(p) && p.cooldowns.wf())
        &&& (self.commands@[2] matches RegisteredCommand::Purge(pg) && pg.wf())
        &&& self.commands@[3] is Suggestion
        &&& self.commands@[4] is Ticket
    }

    /// The full registry, built once at startup.
    pub fn new() -> (r: CommandRegistry)
        ensures
            r.wf(),
    {
        let mut commands: Vec<RegisteredCommand> = Vec::new();
        commands.push(RegisteredCommand::Notes(Notes::new()));
        commands.push(RegisteredCommand::Ping(Ping::new()));
        commands.push(RegisteredCommand::Purge(Purge::new()));
        commands.push(RegisteredCommand::Suggestion(Suggestion::new()));
        commands.push(RegisteredCommand::Ticket(Ticket::new()));
        CommandRegistry { commands }
    }

    /// Resolves an inbound event name to the first command that owns it,
    /// or to nothing — in which case the event is dropped.
    pub fn dispatch(&self, cfg: &Config, name: &String) -> (r: Option<usize>)
        ensures
            r matches Option::Some(i) ==> {
                &&& i < self.commands@.len()
                &&& command_answers_to(self.commands@[i as int], *cfg, name@)
                &&& forall|j: int|
                    0 <= j < i ==> !command_answers_to(self.commands@[j], *cfg, name@)
            },
            r is None ==> forall|j: int|
                0 <= j < self.commands@.len() ==> !command_answers_to(
                    self.commands@[j],
                    *cfg,
                    name@,
                ),
    {
        let n = self.commands.len();
        let mut i: usize = 0;
        while i < n
            invariant
                i <= n,
                n == self.commands@.len(),
                forall|j: int| 0 <= j < i ==> !command_answers_to(self.commands@[j], *cfg, name@),
            decreases n - i,
        {
            if answers_to(&self.commands[i], cfg, name) {
                return Some(i);
            }
            i = i + 1;
        }
        None
    }
}

} // verus!
