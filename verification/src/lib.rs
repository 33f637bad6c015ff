//! A Proof-of-History timekeeper: a sequential hash chain that emits tick
//! records, the predicates that re-derive the chain to validate them, the
//! decisions of the scheduler and of the worker facilities that drive it, and
//! a small proof-of-stake layer that binds blocks to the records.

pub mod constants;
pub mod hash;
pub mod record;
pub mod engine;
pub mod verify;
pub mod lemmas;
pub mod scheduler;
pub mod config;
pub mod manager;
pub mod policy;
pub mod pool;
pub mod serialization;
pub mod text;
pub mod validator;
pub mod transaction;
pub mod block;
pub mod state;
pub mod processor;
pub mod args;
