//! A terminal explorer for a blockchain network: identifier decoding, command
//! dispatch, the preference record and the reports that each command prints.
pub mod amount;
pub mod command;
pub mod commands;
pub mod config;
pub mod error;
pub mod ident;
pub mod report;
pub mod text;
pub mod time;
