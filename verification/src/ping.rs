//! The role-ping commands.
//!
//! Each configured ping command lets an actor mention one of a fixed set of
//! roles, optionally restricted to certain channels, throttled by a short
//! global debounce and a longer per-actor cooldown on the same role — the
//! two scopes are checked independently and refreshed together.

use vstd::prelude::*;
use crate::config::{clone_choices, Config, PingConfig};
use crate::cooldown::{
    actor_key, expiry_spec, global_key, CooldownKey, Cooldowns,
};
use crate::events::{text_opt, InputError, Invocation, OptEntry, parse_u64, parse_u64_spec};
use crate::permissions::{grants_spec, permission_grants};
use crate::schema::{CommandSchema, OptKind, OptSpec, Registration};

verus! {

/// Seconds during which nobody may ping the same role again.
pub const GLOBAL_PING_COOLDOWN_SECS: u64 = 60;

/// Seconds during which the same actor may not ping the same role again.
pub const ACTOR_PING_COOLDOWN_SECS: u64 = 300;

/// The first configured ping command with the given name, if any.
pub open spec fn ping_config_for(pings: Seq<PingConfig>, cmd: Seq<char>) -> Option<PingConfig>
    decreases pings.len(),
{
    if pings.len() == 0 {
        Option::None
    } else if pings[0].name@ == cmd {
        Option::Some(pings[0])
    } else {
        ping_config_for(pings.drop_first(), cmd)
    }
}

/// Whether any configured ping command has the given name.
pub open spec fn is_ping_name(pings: Seq<PingConfig>, cmd: Seq<char>) -> bool {
    ping_config_for(pings, cmd) is Some
}

/// Whether a ping restricted to certain channels is blocked here: neither
/// the channel itself nor its category is on the allowed list. An
/// unrestricted ping is never blocked.
pub open spec fn channel_blocked(opt: PingConfig, channel: u64, category: Option<u64>) -> bool {
    match opt.allowed_channels {
        Option::Some(chs) => !(chs@.contains(channel) || (category matches Option::Some(c)
            && chs@.contains(c))),
        Option::None => false,
    }
}

/// The longer of the two remaining cooldowns, if either scope of `role` is
/// still cooling down for this actor at instant `now`.
pub open spec fn cooldown_hit(pre: Cooldowns, actor: u64, role: u64, now: u64) -> Option<u64> {
    let a = pre.check_spec(actor_key(actor, role), now);
    let g = pre.check_spec(global_key(role), now);
    match (a, g) {
        (Option::Some(x), Option::Some(y)) => Option::Some(
            if x >= y {
                x
            } else {
                y
            },
        ),
        (Option::Some(x), Option::None) => Option::Some(x),
        (Option::None, Option::Some(y)) => Option::Some(y),
        (Option::None, Option::None) => Option::None,
    }
}

/// Both scopes of `role` freshly refreshed at `now` — the global debounce
/// and the actor's own cooldown — with every other key untouched.
pub open spec fn refreshed_both(
    pre: Cooldowns,
    post: Cooldowns,
    actor: u64,
    role: u64,
    now: u64,
) -> bool {
    &&& post.expiry_of(global_key(role)) == Option::Some(
        expiry_spec(now, GLOBAL_PING_COOLDOWN_SECS),
    )
    &&& post.expiry_of(actor_key(actor, role)) == Option::Some(
        expiry_spec(now, ACTOR_PING_COOLDOWN_SECS),
    )
    &&& forall|k: CooldownKey|
        k != global_key(role) && k != actor_key(actor, role) ==> post.expiry_of(k)
            == pre.expiry_of(k)
}

/// The optional extra text sent along with a ping.
pub open spec fn ping_text_spec(opts: Seq<OptEntry>) -> Seq<char> {
    match text_opt(opts, "text"@) {
        Option::Some(t) => t,
        Option::None => Seq::empty(),
    }
}

/// What one ping invocation decides.
#[derive(Debug)]
pub enum PingOutcome {
    /// The actor's input was unusable; answer with a corrective message.
    Invalid(InputError),
    /// The command is disabled in this channel.
    DisabledChannel,
    /// A scope of this role is still cooling down for this long.
    OnCooldown(u64),
    /// Mention the role, with the optional extra text, and confirm.
    Send { role: u64, text: String },
}

/// What a ping invocation at instant `now` does to the cooldown state and
/// answers: bad input and blocked channels change nothing; a live cooldown
/// on either scope reports the longer remaining time and changes nothing;
/// otherwise both scopes are refreshed and the mention is sent.
pub open spec fn ping_rel(
    pre: Cooldowns,
    post: Cooldowns,
    cfg: Config,
    inv: Invocation,
    now: u64,
    r: PingOutcome,
) -> bool {
    match text_opt(inv.options@, "role"@) {
        Option::None => r == PingOutcome::Invalid(InputError::MissingOption) && post == pre,
        Option::Some(t) => match parse_u64_spec(t) {
            Option::None => r == PingOutcome::Invalid(InputError::InvalidNumber) && post == pre,
            Option::Some(role) => {
                let blocked = match ping_config_for(cfg.pings@, inv.command@) {
                    Option::Some(opt) => channel_blocked(opt, inv.channel_id, inv.category_id),
                    Option::None => false,
                };
                if blocked {
                    r == PingOutcome::DisabledChannel && post == pre
                } else {
                    match cooldown_hit(pre, inv.actor_id, role, now) {
                        Option::Some(rem) => r == PingOutcome::OnCooldown(rem) && post == pre,
                        Option::None => {
                            &&& (r matches PingOutcome::Send { role: rid, text } && rid == role
                                && text@ == ping_text_spec(inv.options@))
                            &&& refreshed_both(pre, post, inv.actor_id, role, now)
                        },
                    }
                }
            },
        },
    }
}

fn contains_u64(v: &Vec<u64>, x: u64) -> (r: bool)
    ensures
        r == v@.contains(x),
{
    let n = v.len();
    let mut i: usize = 0;
    while i < n
        invariant
            i <= n,
            n == v@.len(),
            forall|j: int| 0 <= j < i ==> v@[j] != x,
        decreases n - i,
    {
        if v[i] == x {
            return true;
        }
        i = i + 1;
    }
    false
}

fn find_ping<'a>(pings: &'a Vec<PingConfig>, cmd: &String) -> (r: Option<&'a PingConfig>)
    ensures
        r is Some <==> ping_config_for(pings@, cmd@) is Some,
        r matches Option::Some(p) ==> *p == ping_config_for(pings@, cmd@).unwrap(),
{
    let n = pings.len();
    let mut i: usize = 0;
    proof {
        assert(pings@.skip(0) =~= pings@);
    }
    while i < n
        invariant
            i <= n,
            n == pings@.len(),
            ping_config_for(pings@, cmd@) == ping_config_for(pings@.skip(i as int), cmd@),
        decreases n - i,
    {
        proof {
            let rest = pings@.skip(i as int);
            assert(rest[0] == pings@[i as int]);
            assert(rest.drop_first() =~= pings@.skip(i as int + 1));
        }
        if pings[i].name == *cmd {
            return Some(&pings[i]);
        }
        i = i + 1;
    }
    proof {
        assert(pings@.skip(n as int) =~= Seq::<PingConfig>::empty());
    }
    None
}

fn is_blocked(opt: &PingConfig, channel: u64, category: Option<u64>) -> (r: bool)
    ensures
        r == channel_blocked(*opt, channel, category),
{
    match &opt.allowed_channels {
        Option::Some(chs) => {
            let on_channel = contains_u64(chs, channel);
            let on_category = match category {
                Option::Some(c) => contains_u64(chs, c),
                Option::None => false,
            };
            !(on_channel || on_category)
        },
        Option::None => false,
    }
}

/// The ping commands: one registration per configured ping, sharing one
/// cooldown engine.
pub struct Ping {
    pub cooldowns: Cooldowns,
}

impl Ping {
    /// The family's name; events are matched against the configured ping
    /// names instead.
    pub fn name(&self) -> (r: String)
        ensures
            r@ == "ping"@,
    {
        "ping".to_owned()
    }

    /// A ping family with no cooldown running.
    pub fn new() -> (r: Ping)
        ensures
            r.cooldowns.wf(),
            forall|k: CooldownKey| r.cooldowns.expiry_of(k) == Option::<u64>::None,
    {
        Ping { cooldowns: Cooldowns::new() }
    }

    /// Whether this family owns the named command.
    pub fn is_command(&self, cfg: &Config, name: &String) -> (r: bool)
        ensures
            r == is_ping_name(cfg.pings@, name@),
    {
        let found = find_ping(&cfg.pings, name);
        match found {
            Option::Some(_) => true,
            Option::None => false,
        }
    }

    /// Declares one command per configured ping: a required role choice
    /// among the configured options and an optional extra text; each open
    /// to its required roles and the staff role.
    pub fn register(&self, cfg: &Config) -> (r: Vec<Registration>)
        ensures
            r@.len() == cfg.pings@.len(),
            forall|p: int|
                0 <= p < r@.len() ==> #[trigger] reg_matches_ping(r@[p], cfg.pings@[p], cfg.staff),
    {
        let mut staff_baseline: Vec<u64> = Vec::new();
        staff_baseline.push(cfg.staff);
        let n = cfg.pings.len();
        let mut r: Vec<Registration> = Vec::new();
        let mut p: usize = 0;
        while p < n
            invariant
                p <= n,
                n == cfg.pings@.len(),
                staff_baseline@ =~= seq![cfg.staff],
                r@.len() == p,
                forall|q: int|
                    0 <= q < p ==> #[trigger] reg_matches_ping(r@[q], cfg.pings@[q], cfg.staff),
            decreases n - p,
        {
            let pc = &cfg.pings[p];
            let mut options: Vec<OptSpec> = Vec::new();
            options.push(
                OptSpec {
                    name: "role".to_owned(),
                    kind: OptKind::Text,
                    required: true,
                    choices: clone_choices(&pc.options),
                },
            );
            options.push(
                OptSpec {
                    name: "text".to_owned(),
                    kind: OptKind::Text,
                    required: false,
                    choices: Vec::new(),
                },
            );
            let grants = permission_grants(&pc.required_roles, &staff_baseline);
            proof {
                assert(pc.required_roles@ + staff_baseline@ =~= pc.required_roles@ + seq![
                    cfg.staff,
                ]);
            }
            r.push(
                Registration {
                    schema: CommandSchema {
                        name: pc.name.clone(),
                        description: "Ping a desired role uppon request".to_owned(),
                        default_visible: false,
                        options,
                        subcommands: Vec::new(),
                    },
                    grants,
                },
            );
            p = p + 1;
        }
        r
    }

    /// Decides one ping invocation at instant `now`, updating the cooldown
    /// state exactly as `ping_rel` states.
    pub fn run(&mut self, cfg: &Config, inv: &Invocation, now: u64) -> (r: PingOutcome)
        requires
            old(self).cooldowns.wf(),
        ensures
            final(self).cooldowns.wf(),
            ping_rel(old(self).cooldowns, final(self).cooldowns, *cfg, *inv, now, r),
    {
        let role_txt = match inv.get_text(&"role".to_owned()) {
            Some(t) => t,
            None => {
                return PingOutcome::Invalid(InputError::MissingOption);
            },
        };
        let role = match parse_u64(&role_txt) {
            Some(v) => v,
            None => {
                return PingOutcome::Invalid(InputError::InvalidNumber);
            },
        };
        if let Some(opt) = find_ping(&cfg.pings, &inv.command) {
            if is_blocked(opt, inv.channel_id, inv.category_id) {
                return PingOutcome::DisabledChannel;
            }
        }
        let ak = CooldownKey::per_actor(inv.actor_id, role);
        let gk = CooldownKey::global(role);
        let a = self.cooldowns.check_at(ak, now);
        let g = self.cooldowns.check_at(gk, now);
        let hit: Option<u64> = match (a, g) {
            (Some(x), Some(y)) => Some(
                if x >= y {
                    x
                } else {
                    y
                },
            ),
            (Some(x), None) => Some(x),
            (None, Some(y)) => Some(y),
            (None, None) => None,
        };
        if let Some(rem) = hit {
            return PingOutcome::OnCooldown(rem);
        }
        self.cooldowns.refresh_at(gk, now, GLOBAL_PING_COOLDOWN_SECS);
        self.cooldowns.refresh_at(ak, now, ACTOR_PING_COOLDOWN_SECS);
        let text = match inv.get_text(&"text".to_owned()) {
            Some(t) => t,
            None => String::new(),
        };
        PingOutcome::Send { role, text }
    }
}

/// Whether `reg` is the correct declaration of the configured ping `pc`
/// with baseline staff role `staff`.
pub open spec fn reg_matches_ping(reg: Registration, pc: PingConfig, staff: u64) -> bool {
    &&& reg.schema.name@ == pc.name@
    &&& reg.schema.default_visible == false
    &&& reg.schema.subcommands@.len() == 0
    &&& reg.schema.options@.len() == 2
    &&& reg.schema.options@[0].name@ == "role"@
    &&& reg.schema.options@[0].kind == OptKind::Text
    &&& reg.schema.options@[0].required
    &&& reg.schema.options@[0].choices@ == pc.options@
    &&& reg.schema.options@[1].name@ == "text"@
    &&& reg.schema.options@[1].kind == OptKind::Text
    &&& !reg.schema.options@[1].required
    &&& reg.schema.options@[1].choices@.len() == 0
    &&& reg.grants@ == grants_spec(pc.required_roles@ + seq![staff])
}

} // verus!
