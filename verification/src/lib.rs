//! Admission control for a packet-forwarding path.
//!
//! A flow is identified by its source address, its transport protocol and
//! its destination port. Each flow may be admitted a bounded number of times
//! within a sliding time window, and only a bounded number of flows is
//! tracked at once.
//!
//! `model` states what the limiter holds and what each operation makes of
//! it; `limiter` and `security` are the executable limiter and the admission
//! gate in front of it, proved against that model; `laws` holds what follows
//! for whole runs. `maintenance` is the life of the periodic cleaning task.

pub mod clock;
pub mod flow;
pub mod laws;
pub mod limiter;
pub mod maintenance;
pub mod model;
pub mod security;
pub mod window;

pub use flow::FlowKey;
pub use limiter::RateLimiter;
pub use maintenance::{TaskAction, TaskEvent, TaskState};
pub use security::Security;
pub use window::Nanos;
