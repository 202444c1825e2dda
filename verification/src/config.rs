//! Startup configuration.
//!
//! Read once at process start and immutable afterwards: the guild, the named
//! staff roles, the suggestion channel, and the list of ping commands with
//! their selectable roles, required roles and optional channel restriction.
//! An explicit value passed by reference into every handler, in place of
//! process-wide singletons.

use vstd::prelude::*;
use crate::schema::Choice;

verus! {

/// One configured ping command: its command name, the selectable role
/// choices, the extra roles required to use it, and an optional restriction
/// to certain channels (or their category).
pub struct PingConfig {
    pub name: String,
    pub options: Vec<Choice>,
    pub required_roles: Vec<u64>,
    pub allowed_channels: Option<Vec<u64>>,
}

/// The bot's configuration surface.
pub struct Config {
    pub guild: u64,
    pub staff: u64,
    pub support: u64,
    pub trial_support: u64,
    pub ss_support: u64,
    pub suggestion_channel: u64,
    pub pings: Vec<PingConfig>,
}

/// A copy of a choice list, equal element for element.
pub fn clone_choices(v: &Vec<Choice>) -> (r: Vec<Choice>)
    ensures
        r@ == v@,
{
    let n = v.len();
    let mut r: Vec<Choice> = Vec::new();
    let mut i: usize = 0;
    while i < n
        invariant
            i <= n,
            n == v@.len(),
            r@ =~= v@.take(i as int),
        decreases n - i,
    {
        r.push(v[i].clone());
        proof {
            assert(r@ =~= v@.take(i as int + 1));
        }
        i = i + 1;
    }
    proof {
        assert(v@.take(n as int) =~= v@);
    }
    r
}

} // verus!
