//! Request and response bodies of the HTTP interface. Identifiers that travel
//! as UUIDs are held as their 128-bit value; instants as nanoseconds since the
//! Unix epoch.

pub mod auth;
pub mod chats;
pub mod users;
