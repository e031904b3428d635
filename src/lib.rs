//! Verified core of a realtime two-party chat service.
//!
//! The service registers users, pairs them through short numeric codes,
//! stores their messages and relays new messages live over WebSockets. The
//! HTTP server, the database and the sockets stay outside this crate; what
//! they decide stands here, each function with its contract:
//!
//! - `pagination`, `history`: cursor pagination of a conversation's history,
//!   with the laws that pages cover it without gap or overlap;
//! - `relay`: the relay session state machine and the authorization of its
//!   upgrade;
//! - `guard`, `messages`: participation and authorship gates;
//! - `pairing`: issuing, revoking and redeeming pairing codes, with a model of
//!   the store's statements;
//! - `accounts`, `session`, `validation`, `hashing`: login, registration,
//!   profile and password changes, session claims and cookies;
//! - `text`, `timestamps`: Unicode trimming and RFC 3339 instants;
//! - `api`, `error`: request and response bodies, and the error taxonomy.

pub mod accounts;
pub mod api;
pub mod error;
pub mod guard;
pub mod hashing;
pub mod history;
pub mod messages;
pub mod pagination;
pub mod pairing;
pub mod relay;
pub mod session;
pub mod text;
pub mod timestamps;
pub mod validation;
