//! Per-profile authentication state for a chat-workspace service.
//!
//! The crate validates raw credential strings, keeps an in-process `World`
//! of profiles with their verified identities, and drives a bounded,
//! cursor-based listing of workspace conversations. Remote calls and the
//! process-wide lock around the `World` belong to the embedding layer; the
//! library exposes the decision steps of each workflow with full contracts.

pub mod auth;
pub mod conversations;
pub mod errors;
pub mod storage;
pub mod store;
pub mod strings;
pub mod token;
pub mod types;
pub mod world;
