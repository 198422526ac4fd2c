use vstd::prelude::*;

pub mod bridge;
pub mod builder;
pub mod chat;
pub mod client;
pub mod executor;
pub mod media;
pub mod memory_cache;
pub mod messages;
pub mod notifications;
pub mod proto_cache;
pub mod rooms;
pub mod sas;
pub mod session;
pub mod strmap;
pub mod text;
pub mod user;

verus! {

} // verus!
