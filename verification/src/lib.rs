//! Core engine of a chat-platform moderation bot: command registration and
//! dispatch, permission-grant generation, dual-scope cooldown tracking, paged
//! response planning, and a bounded streaming purge filter.
//!
//! Everything here works on plain values; the platform transport (sending
//! messages, fetching history, registering commands with the host) is an
//! external collaborator that performs the actions these modules decide on.

mod clock;
pub mod config;
pub mod cooldown;
pub mod events;
pub mod notes;
pub mod schema;
pub mod suggest;
pub mod ticket;
pub mod paging;
pub mod permissions;
pub mod ping;
pub mod purge;
pub mod registry;
pub mod textmatch;
