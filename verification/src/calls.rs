//! What comes of calling the library, whatever it is called with. Each law speaks of the values
//! that a call takes and gives, and of nothing in between.

pub mod command_line;
pub mod commands;
pub mod events;
pub mod requests;
pub mod saving;
pub mod start;
pub mod tables;
pub mod toggling;
pub mod trees;
pub mod words;
