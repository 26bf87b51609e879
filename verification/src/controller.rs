//! The controller side of the engine: the state store, the command
//! synthesis and the per-frame planner.

pub mod action_handler;
pub mod action_manager;
pub mod command;
pub mod input;
