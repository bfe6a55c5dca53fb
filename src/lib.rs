//! Orchestration core of a desktop poker-solver front end: the command
//! rules, lifecycle state machines and lock discipline that guard a set of
//! shared engine objects against concurrent callers.
pub mod bunching;
pub mod decimal;
pub mod error;
pub mod game;
pub mod pool;
pub mod range;
pub mod registry;
pub mod route;
pub mod tree;
