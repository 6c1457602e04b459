//! An in-process actor runtime, split into the decisions every actor task
//! makes and the channel operations those decisions rest on.
//!
//! Each actor owns two mailboxes: a bounded one for ordinary traffic and an
//! unbounded one for priority traffic. An [`Addr`] enqueues, a [`Context`]
//! dequeues with strict priority-first precedence, an [`Agency`] registers
//! the tasks that drive actors, and an [`AgencyHandle`] tracks them until
//! all have finished. Everything here is synchronous and poll-based, so an
//! executor of the caller's choice can drive it.

pub mod actor;
pub mod addr;
pub mod agency;
pub mod bindings;
pub mod context;
pub mod lifecycle;
pub mod polled;
pub mod ponger;
pub mod request;

pub use crate::actor::StoppingResult;
pub use crate::addr::{Addr, SendError};
pub use crate::agency::{Agency, AgencyHandle, SpawnError, WaitStep};
pub use crate::polled::Polled;
pub use crate::context::{Context, Phase, Running, Stopped, MAILBOX_CAPACITY};
pub use crate::lifecycle::{Observation, Stage};
pub use crate::ponger::Ponger;
pub use crate::request::{Awaited, Request, RequestError, RequestTimeoutError};
