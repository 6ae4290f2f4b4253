//! A verified library for managing a surrealmcp server process: the
//! single-instance lock, probing and stopping a running server, and turning
//! the command line into what each command does.
pub mod commands;
pub mod decimal;
pub mod manager;
pub mod pids;
pub mod session;
pub mod stop;
pub mod text;
