//! Verified core of an asynchronous chat-and-voice gateway client.
//!
//! The crate models the realtime protocol plane of the client: the wire
//! envelope codec, sequence tracking and heartbeats, the guild registry and
//! per-guild state projection, and the voice packet/pacing machinery.

use vstd::prelude::*;

pub mod gateway;
pub mod guild;
mod intents;
mod json;
pub mod protocol;
mod registry;
pub mod rest;
mod session;
mod snowflake;
mod text;
pub mod types;
pub mod voice;

pub use intents::{default_intents, Intents};
pub use registry::{GuildEntry, GuildRegistry, RouteDecision};
pub use session::{Lifecycle, SequenceTracker, Supervisor, SupervisorStep};
pub use rest::{ApiError, Attachment, CreateMessage, Error as RestError};
pub use protocol::ProtocolError;
pub use snowflake::Snowflake;

verus! {

} // verus!
