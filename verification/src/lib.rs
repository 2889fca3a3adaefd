//! A deterministic, append-only manager for turn-based game sessions.
//!
//! Sessions are created, joined, started, advanced one validated action at a
//! time, and ended.  An md5-chained fingerprint binds the accepted history of
//! each session into a single tamper-evident digest, so that independent
//! replicas running the same sequence of calls reach the same state.

pub mod contract;
pub mod fingerprint;
pub mod session;

pub use contract::Contract;
pub use contract::ContractView;
pub use session::Action;
pub use session::ActionView;
pub use session::Game;
pub use session::GameError;
pub use session::GameView;
