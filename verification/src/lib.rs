//! Decision logic of an agent that samples the window holding the focus and
//! reports every change as one record. The agent itself performs no input or
//! output: a driver hands it events and performs the actions it answers with.

pub mod agent;
pub mod args;
pub mod command;
pub mod config;
pub mod event;
pub mod json;
pub mod loader;
pub mod output;
pub mod session;
pub mod startup;
pub mod text;
