//! One report per command.
pub mod account;
pub mod block;
pub mod cluster;
pub mod global;
pub mod network;
pub mod program;
pub mod stake;
pub mod token;
pub mod transaction;
pub mod validator;
