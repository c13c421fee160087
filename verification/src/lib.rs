//! Actors and generic servers in the manner of Erlang.
//!
//! An actor is a process with a mailbox, an identifier and a state of its own.
//! It handles one message after another; others send it messages, call it and
//! wait for a reply, link themselves with it, monitor it and find it by name.
//!
//! This crate holds what decides: what follows an event in the life of an actor
//! ([`tasks::actor_loop`]) or of a server ([`tasks::gen_server_loop`]), who
//! learns of whose end ([`process_table`]), who goes by which name
//! ([`registry`]). What waits, and what runs the callbacks, is around it and
//! is told what to do.
pub mod backend;
pub mod channel;
pub mod error;
pub mod link;
pub mod pid;
pub mod process_laws;
pub mod process_table;
pub mod registry;
mod sequences;
pub mod tasks;
pub mod warn_on_block;

pub use backend::Backend;
pub use link::{MonitorRef, SystemMessage};
pub use pid::{ExitReason, HasPid, Pid};
pub use process_table::LinkError;
pub use registry::RegistryError;
