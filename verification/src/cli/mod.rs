//! The command-line surface: commands, option rules, and what each action
//! does to the database and prints.

pub mod args;
pub mod common;
pub mod assets;
pub mod entities;
pub mod actions;
pub mod handlers;
