use scrim_bot::config::{Config, PingConfig};
use scrim_bot::events::{parse_u64, InputError, Invocation, OptEntry, OptValue};
use scrim_bot::notes::{Notes, NotesAck, NotesRequest, StoreError};
use scrim_bot::paging::Emission;
use scrim_bot::ping::{Ping, PingOutcome};
use scrim_bot::registry::{CommandRegistry, RegisteredCommand};
use scrim_bot::schema::{Choice, OptKind};
use scrim_bot::suggest::Suggestion;
use scrim_bot::ticket::{Ticket, TicketAction};

fn config() -> Config {
    Config {
        guild: 1000,
        staff: 1,
        support: 2,
        trial_support: 3,
        ss_support: 4,
        suggestion_channel: 900,
        pings: vec![PingConfig {
            name: "pingpros".to_string(),
            options: vec![Choice { label: "Pros".to_string(), value: "555".to_string() }],
            required_roles: vec![70, 71],
            allowed_channels: None,
        }],
    }
}

fn invocation(command: &str, subcommand: Option<&str>, options: Vec<(&str, OptValue)>) -> Invocation {
    Invocation {
        command: command.to_string(),
        subcommand: subcommand.map(|s| s.to_string()),
        options: options
            .into_iter()
            .map(|(n, v)| OptEntry { name: n.to_string(), value: v })
            .collect(),
        actor_id: 7,
        channel_id: 8,
        category_id: Some(9),
    }
}

#[test]
fn parse_u64_accepts_digits_and_rejects_the_rest() {
    assert_eq!(parse_u64(&"0".to_string()), Some(0));
    assert_eq!(parse_u64(&"123".to_string()), Some(123));
    assert_eq!(parse_u64(&"007".to_string()), Some(7));
    assert_eq!(parse_u64(&"18446744073709551615".to_string()), Some(u64::MAX));
    assert_eq!(parse_u64(&"18446744073709551616".to_string()), None);
    assert_eq!(parse_u64(&"".to_string()), None);
    assert_eq!(parse_u64(&"12a".to_string()), None);
    assert_eq!(parse_u64(&"-1".to_string()), None);
}

#[test]
fn ping_sends_and_starts_both_cooldowns() {
    let cfg = config();
    let mut ping = Ping::new();
    let inv = invocation(
        "pingpros",
        None,
        vec![
            ("role", OptValue::Text("555".to_string())),
            ("text", OptValue::Text("scrim at 8".to_string())),
        ],
    );
    match ping.run(&cfg, &inv, 1000) {
        PingOutcome::Send { role, text } => {
            assert_eq!(role, 555);
            assert_eq!(text, "scrim at 8");
        }
        other => panic!("expected a send, got {other:?}"),
    }
    // the same actor is now on the longer per-actor cooldown
    match ping.run(&cfg, &inv, 1001) {
        PingOutcome::OnCooldown(rem) => assert_eq!(rem, 299),
        other => panic!("expected a cooldown, got {other:?}"),
    }
}

#[test]
fn ping_global_debounce_blocks_other_actors_briefly() {
    let cfg = config();
    let mut ping = Ping::new();
    let first = invocation("pingpros", None, vec![("role", OptValue::Text("555".to_string()))]);
    assert!(matches!(ping.run(&cfg, &first, 1000), PingOutcome::Send { .. }));
    let mut second = invocation("pingpros", None, vec![("role", OptValue::Text("555".to_string()))]);
    second.actor_id = 99;
    match ping.run(&cfg, &second, 1001) {
        PingOutcome::OnCooldown(rem) => assert_eq!(rem, 59),
        other => panic!("expected the global debounce, got {other:?}"),
    }
    // once the global minute has passed, the other actor may ping
    assert!(matches!(ping.run(&cfg, &second, 1060), PingOutcome::Send { .. }));
}

#[test]
fn ping_cooldown_expires_for_the_same_actor() {
    let cfg = config();
    let mut ping = Ping::new();
    let inv = invocation("pingpros", None, vec![("role", OptValue::Text("555".to_string()))]);
    assert!(matches!(ping.run(&cfg, &inv, 1000), PingOutcome::Send { .. }));
    assert!(matches!(ping.run(&cfg, &inv, 1299), PingOutcome::OnCooldown(1)));
    assert!(matches!(ping.run(&cfg, &inv, 1300), PingOutcome::Send { .. }));
}

#[test]
fn ping_respects_channel_restrictions() {
    let mut cfg = config();
    cfg.pings[0].allowed_channels = Some(vec![500]);
    let mut ping = Ping::new();
    let inv = invocation("pingpros", None, vec![("role", OptValue::Text("555".to_string()))]);
    assert!(matches!(ping.run(&cfg, &inv, 1000), PingOutcome::DisabledChannel));
    // a blocked attempt must not start any cooldown
    let mut in_channel = invocation("pingpros", None, vec![("role", OptValue::Text("555".to_string()))]);
    in_channel.channel_id = 500;
    assert!(matches!(ping.run(&cfg, &in_channel, 1000), PingOutcome::Send { .. }));
}

#[test]
fn ping_allows_a_channel_through_its_category() {
    let mut cfg = config();
    cfg.pings[0].allowed_channels = Some(vec![9]);
    let mut ping = Ping::new();
    // channel 8 is not allowed, but its category 9 is
    let inv = invocation("pingpros", None, vec![("role", OptValue::Text("555".to_string()))]);
    assert!(matches!(ping.run(&cfg, &inv, 1000), PingOutcome::Send { .. }));
}

#[test]
fn ping_rejects_a_bad_role_value() {
    let cfg = config();
    let mut ping = Ping::new();
    let missing = invocation("pingpros", None, vec![]);
    assert!(matches!(
        ping.run(&cfg, &missing, 0),
        PingOutcome::Invalid(InputError::MissingOption)
    ));
    let garbled = invocation("pingpros", None, vec![("role", OptValue::Text("five".to_string()))]);
    assert!(matches!(
        ping.run(&cfg, &garbled, 0),
        PingOutcome::Invalid(InputError::InvalidNumber)
    ));
}

#[test]
fn ping_registers_one_command_per_configured_ping() {
    let cfg = config();
    let ping = Ping::new();
    let regs = ping.register(&cfg);
    assert_eq!(regs.len(), 1);
    let reg = &regs[0];
    assert_eq!(reg.schema.name, "pingpros");
    assert!(!reg.schema.default_visible);
    assert_eq!(reg.schema.options.len(), 2);
    assert_eq!(reg.schema.options[0].name, "role");
    assert_eq!(reg.schema.options[0].kind, OptKind::Text);
    assert!(reg.schema.options[0].required);
    assert_eq!(reg.schema.options[0].choices.len(), 1);
    assert_eq!(reg.schema.options[0].choices[0].label, "Pros");
    assert_eq!(reg.schema.options[0].choices[0].value, "555");
    assert_eq!(reg.schema.options[1].name, "text");
    // required roles 70 and 71, then the staff baseline
    let roles: Vec<u64> = reg.grants.iter().map(|g| g.role_id).collect();
    assert_eq!(roles, vec![70, 71, 1]);
    assert!(reg.grants.iter().all(|g| g.allow));
}

#[test]
fn notes_parses_its_three_subcommands() {
    let notes = Notes::new();
    let list = invocation("notes", Some("list"), vec![("user", OptValue::Text("42".to_string()))]);
    assert!(matches!(notes.parse_request(&list, 5), NotesRequest::List { user: 42 }));

    let add = invocation(
        "notes",
        Some("add"),
        vec![
            ("user", OptValue::Text("42".to_string())),
            ("note", OptValue::Text("smurf".to_string())),
        ],
    );
    match notes.parse_request(&add, 777) {
        NotesRequest::Add { user, text, created_at } => {
            assert_eq!(user, 42);
            assert_eq!(text, "smurf");
            assert_eq!(created_at, 777);
        }
        other => panic!("expected an add request, got {other:?}"),
    }

    let remove = invocation(
        "notes",
        Some("remove"),
        vec![
            ("user", OptValue::Text("42".to_string())),
            ("noteid", OptValue::Int(3)),
        ],
    );
    assert!(matches!(
        notes.parse_request(&remove, 5),
        NotesRequest::Remove { user: 42, note_id: 3 }
    ));
}

#[test]
fn notes_reports_each_input_fault() {
    let notes = Notes::new();
    let unknown = invocation("notes", Some("archive"), vec![]);
    assert!(matches!(
        notes.parse_request(&unknown, 0),
        NotesRequest::Invalid(InputError::UnknownSubcommand)
    ));
    let no_sub = invocation("notes", None, vec![]);
    assert!(matches!(
        notes.parse_request(&no_sub, 0),
        NotesRequest::Invalid(InputError::UnknownSubcommand)
    ));
    let no_user = invocation("notes", Some("list"), vec![]);
    assert!(matches!(
        notes.parse_request(&no_user, 0),
        NotesRequest::Invalid(InputError::MissingOption)
    ));
    let bad_user = invocation("notes", Some("list"), vec![("user", OptValue::Text("x".to_string()))]);
    assert!(matches!(
        notes.parse_request(&bad_user, 0),
        NotesRequest::Invalid(InputError::InvalidNumber)
    ));
    let negative_id = invocation(
        "notes",
        Some("remove"),
        vec![
            ("user", OptValue::Text("42".to_string())),
            ("noteid", OptValue::Int(-1)),
        ],
    );
    assert!(matches!(
        notes.parse_request(&negative_id, 0),
        NotesRequest::Invalid(InputError::InvalidNumber)
    ));
}

#[test]
fn notes_parse_against_the_real_clock_runs() {
    let notes = Notes::new();
    let add = invocation(
        "notes",
        Some("add"),
        vec![
            ("user", OptValue::Text("42".to_string())),
            ("note", OptValue::Text("n".to_string())),
        ],
    );
    assert!(matches!(
        notes.parse_request_now(&add),
        NotesRequest::Add { user: 42, .. }
    ));
}

#[test]
fn notes_list_plan_pages_the_notes() {
    let notes = Notes::new();
    let empty: Vec<scrim_bot::notes::Note> = Vec::new();
    assert_eq!(notes.list_plan(&empty), vec![Emission::NoResults]);
    let some: Vec<scrim_bot::notes::Note> = (0..11)
        .map(|i| scrim_bot::notes::Note {
            id: i,
            note: "n".to_string(),
            creator: 1,
            created_at: 0,
        })
        .collect();
    assert_eq!(notes.list_plan(&some).len(), 2);
}

#[test]
fn notes_store_failure_is_distinct_from_an_id() {
    let notes = Notes::new();
    assert_eq!(notes.add_ack(Ok(12)), NotesAck::Added { id: 12 });
    assert_eq!(notes.add_ack(Err(StoreError::Unavailable)), NotesAck::StoreFailed);
}

#[test]
fn notes_registration_declares_the_subcommands() {
    let cfg = config();
    let reg = Notes::new().register(&cfg);
    assert_eq!(reg.schema.name, "notes");
    assert_eq!(reg.schema.subcommands.len(), 3);
    assert_eq!(reg.schema.subcommands[0].name, "list");
    assert_eq!(reg.schema.subcommands[1].name, "add");
    assert_eq!(reg.schema.subcommands[2].name, "remove");
    assert_eq!(reg.schema.subcommands[2].options[1].kind, OptKind::Integer);
    let roles: Vec<u64> = reg.grants.iter().map(|g| g.role_id).collect();
    assert_eq!(roles, vec![2, 3, 1]);
}

#[test]
fn suggestion_forwards_to_the_configured_channel() {
    let cfg = config();
    let sugg = Suggestion::new();
    let inv = invocation(
        "suggestion",
        None,
        vec![("suggestion", OptValue::Text("more maps".to_string()))],
    );
    let plan = sugg.run(&cfg, &inv).unwrap();
    assert_eq!(plan.channel, 900);
    assert_eq!(plan.actor, 7);
    assert_eq!(plan.suggestion, "more maps");
}

#[test]
fn suggestion_requires_its_text() {
    let cfg = config();
    let inv = invocation("suggestion", None, vec![]);
    assert_eq!(Suggestion::new().run(&cfg, &inv).unwrap_err(), InputError::MissingOption);
}

#[test]
fn suggestion_registration_is_open_to_everyone() {
    let reg = Suggestion::new().register();
    assert_eq!(reg.schema.name, "suggestion");
    assert!(reg.schema.default_visible);
    assert!(reg.grants.is_empty());
}

#[test]
fn ticket_decides_each_operation() {
    let ticket = Ticket::new();
    let add = invocation(
        "ticket",
        None,
        vec![
            ("operation", OptValue::Text("a".to_string())),
            ("target", OptValue::Text("42".to_string())),
        ],
    );
    assert_eq!(ticket.run(&add, true), TicketAction::AddMember { target: 42 });
    let remove = invocation(
        "ticket",
        None,
        vec![
            ("operation", OptValue::Text("r".to_string())),
            ("target", OptValue::Text("42".to_string())),
        ],
    );
    assert_eq!(ticket.run(&remove, true), TicketAction::RemoveMember { target: 42 });
}

#[test]
fn ticket_rejects_non_tickets_and_bad_input() {
    let ticket = Ticket::new();
    let add = invocation(
        "ticket",
        None,
        vec![
            ("operation", OptValue::Text("a".to_string())),
            ("target", OptValue::Text("42".to_string())),
        ],
    );
    assert_eq!(ticket.run(&add, false), TicketAction::NotATicket);
    let unknown_op = invocation(
        "ticket",
        None,
        vec![
            ("operation", OptValue::Text("x".to_string())),
            ("target", OptValue::Text("42".to_string())),
        ],
    );
    assert_eq!(
        ticket.run(&unknown_op, true),
        TicketAction::Invalid(InputError::UnknownOperation)
    );
    let bad_target = invocation(
        "ticket",
        None,
        vec![
            ("operation", OptValue::Text("a".to_string())),
            ("target", OptValue::Text("someone".to_string())),
        ],
    );
    assert_eq!(
        ticket.run(&bad_target, true),
        TicketAction::Invalid(InputError::InvalidNumber)
    );
}

#[test]
fn ticket_registration_offers_add_and_remove() {
    let cfg = config();
    let reg = Ticket::new().register(&cfg);
    assert_eq!(reg.schema.options[0].choices.len(), 2);
    assert_eq!(reg.schema.options[0].choices[0].value, "a");
    assert_eq!(reg.schema.options[0].choices[1].value, "r");
    let roles: Vec<u64> = reg.grants.iter().map(|g| g.role_id).collect();
    assert_eq!(roles, vec![4, 1]);
}

#[test]
fn registry_resolves_each_command_by_name() {
    let cfg = config();
    let reg = CommandRegistry::new();
    assert_eq!(reg.dispatch(&cfg, &"notes".to_string()), Some(0));
    assert_eq!(reg.dispatch(&cfg, &"pingpros".to_string()), Some(1));
    assert_eq!(reg.dispatch(&cfg, &"purge".to_string()), Some(2));
    assert_eq!(reg.dispatch(&cfg, &"suggestion".to_string()), Some(3));
    assert_eq!(reg.dispatch(&cfg, &"ticket".to_string()), Some(4));
}

#[test]
fn registry_drops_unknown_events_silently() {
    let cfg = config();
    let reg = CommandRegistry::new();
    assert_eq!(reg.dispatch(&cfg, &"ping".to_string()), None);
    assert_eq!(reg.dispatch(&cfg, &"".to_string()), None);
}

#[test]
fn registry_holds_the_five_commands_in_order() {
    let reg = CommandRegistry::new();
    assert_eq!(reg.commands.len(), 5);
    assert!(matches!(reg.commands[0], RegisteredCommand::Notes(_)));
    assert!(matches!(reg.commands[1], RegisteredCommand::Ping(_)));
    assert!(matches!(reg.commands[2], RegisteredCommand::Purge(_)));
    assert!(matches!(reg.commands[3], RegisteredCommand::Suggestion(_)));
    assert!(matches!(reg.commands[4], RegisteredCommand::Ticket(_)));
}
