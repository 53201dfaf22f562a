//! Game logic of a Discord "megagame" bot: identifiers, the task model that
//! the bot queues in its database, and the decisions that drive its game
//! mechanics, commands, task runner and console state.
use vstd::prelude::*;

pub mod ids;
pub mod records;
pub mod tasks;
pub mod components;
pub mod mechanics;
pub mod results;
pub mod messages;
pub mod console;
pub mod commands;
pub mod handler;
pub mod queue;
pub mod runner;
pub mod create_tasks;
pub mod testing;

verus! {

} // verus!
