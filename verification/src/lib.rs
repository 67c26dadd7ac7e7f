//! An asynchronous resource-acquisition bridge.
//!
//! Request-handling code often needs a resource (typically a database
//! connection) from a bounded, blocking-style pool, but must not block the
//! scheduling context that drives many concurrent requests. The bridge turns
//! the pool's blocking interface into a non-blocking operation: it first tries
//! the pool's non-blocking path (the preflight), and only when that yields
//! nothing does it offload the blocking call to an executor strategy, whose
//! outcome crosses back through a single-use [`channel::ResultChannel`].
//!
//! The per-call state machine is [`pending::PendingAcquisition`]; the
//! configured entry point is [`bridge::PoolEndpoint`]. The pool and the
//! executor are collaborators behind the [`pool::BlockingPool`] and
//! [`executor::Executor`] traits; in-memory model implementations of both are
//! provided, and unverified adapters may drive the same state machine against
//! a real pool and scheduler.

pub mod bridge;
pub mod channel;
pub mod errors;
pub mod executor;
pub mod pending;
pub mod pool;

pub use bridge::{pool_endpoint, PoolEndpoint};
pub use channel::{ChannelModel, ChannelPhase, ResultChannel, TryRead};
pub use errors::AcquireError;
pub use executor::{BoundedExecutor, Executor, InlineExecutor};
pub use pending::{AdvanceStatus, PendingAcquisition, PendingModel};
pub use pool::{BlockingPool, FixedPool};
