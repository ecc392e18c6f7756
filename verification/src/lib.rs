//! Small, fully specified state-management components: a command invoker with
//! an append-only undo history, an observer registry, and a bean inventory.

pub mod command;
pub mod inventory;
pub mod observer;
