//! A lightweight actor library.
//!
//! An actor is a state that one task owns and changes, message by message. Its [`Owner`] is what
//! it lives with: when the owner is dropped, the actor's task and all tasks spawned into it are
//! cancelled. An [`Addr`] only leads to it.
//!
//! The crate holds what an actor's task, a call to an actor, a registry of services and a mock
//! decide, and the handles that they decide about. Waiting is left to the caller: where a task or
//! a call has to wait, it says what for, and is told what came of it.
pub mod actor;
pub mod call;
pub mod cancellation;
pub mod channel;
pub mod error;
pub mod external;
pub mod item;
pub mod lifecycle;
pub mod mailbox;
pub mod mock;
pub mod mock_life;
pub mod registry;
pub mod reply;
pub mod service;
pub mod type_map;
pub mod worker;

pub use actor::{Addr, Context, Owner, Recipient};
pub use error::Error;
pub use item::Message;
pub use registry::{Deferred, Registry, RegistryError, RegistryRef};
