//! Content-delivery pipeline of a short-video chat bot.
//!
//! The library covers the verified core: the per-user store (an in-memory
//! arena of user records, the snapshot that the file backend rewrites as a
//! whole), the media resolver that classifies a remote API response into a
//! video or a photo set, and the orchestrator that sequences validation,
//! user bookkeeping, resolution and delivery planning for one inbound
//! message.  Network transport, the chat-platform client and the relational
//! backend's connection live outside the library and consume it through
//! plain values.

pub mod bot;
pub mod data;
pub mod fetcher;
pub mod logger;
pub mod numbers;
pub mod pair;
pub mod parser;
pub mod store;
