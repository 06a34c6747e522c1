//! The recording session: thread-local buffers, the shared state that drains
//! them, and the builders that put a session together.

pub mod buffer;
pub mod builder;
pub mod calls;
pub mod drain_schedule;
pub mod event;
pub mod guard;
pub mod hooks;
pub mod laws;
pub mod pipeline;
pub mod promises;
pub mod runtime_context;
pub mod session;
pub mod shared_state;
pub mod source;
