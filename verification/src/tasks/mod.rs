//! Actors and generic servers that run as tasks.
pub mod actor;
pub mod actor_laws;
pub mod actor_loop;
pub mod actor_ref;
pub mod callback;
pub mod gen_server;
pub mod gen_server_handle;
pub mod gen_server_laws;
pub mod gen_server_loop;
pub mod inbox;
