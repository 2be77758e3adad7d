//! Rate-limited request dispatch for a multi-tier game-data API.
//!
//! The core of the library is a set of token-bucket rate limiters
//! ([`limiter::Limiter`]), grouped into a quota set that models several
//! overlapping request ceilings, and a call orchestration state machine
//! that retries transient failures, treats "not found" as terminal, and
//! reacts to a server-issued throttle signal by pausing all consumption.
//! Around that core stand the endpoint URL builders, the response data
//! models, and the win-rate statistics the caller renders.

pub mod api;
pub mod endpoints;
pub mod limiter;
pub mod models;
pub mod orchestrator;
pub mod quota;
pub mod table;
pub mod util;

pub use limiter::Exhausted;
pub use limiter::Limiter;
pub use quota::QuotaSet;
